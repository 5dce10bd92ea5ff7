//! Capability gating and per-file codec inspection: the marker texts the
//! external tools are inspected for, the exact argument vectors handed to
//! them, and the decision rules over their captured output.
use vstd::prelude::*;
use crate::text::{contains_bytes, is_substring};

verus! {

/// The text looked for in the encoder's stderr to decide that the
/// hardware encoder is usable: "supports NVENC".
pub open spec fn nvenc_marker() -> Seq<u8> {
    seq![
        115u8, 117u8, 112u8, 112u8, 111u8, 114u8, 116u8, 115u8, 32u8, 78u8, 86u8, 69u8, 78u8,
        67u8,
    ]
}

/// The text looked for in the codec probe's stdout to accept a file: "h264".
pub open spec fn h264_marker() -> Seq<u8> {
    seq![104u8, 50u8, 54u8, 52u8]
}

/// The container extension a candidate must carry, exactly and
/// case-sensitively: "mkv".
pub open spec fn target_extension() -> Seq<u8> {
    seq![109u8, 107u8, 118u8]
}

/// What a buffered invocation of an external tool produced: whether it
/// exited successfully, and both captured streams.
pub struct ProcessResult {
    pub success: bool,
    pub stdout_text: Vec<u8>,
    pub stderr_text: Vec<u8>,
}

/// The capability marker as a byte string.
pub fn nvenc_marker_bytes() -> (r: Vec<u8>)
    ensures
        r@ == nvenc_marker(),
{
    let mut v: Vec<u8> = Vec::new();
    v.push(115u8);
    v.push(117u8);
    v.push(112u8);
    v.push(112u8);
    v.push(111u8);
    v.push(114u8);
    v.push(116u8);
    v.push(115u8);
    v.push(32u8);
    v.push(78u8);
    v.push(86u8);
    v.push(69u8);
    v.push(78u8);
    v.push(67u8);
    assert(v@ =~= nvenc_marker());
    v
}

/// The codec marker as a byte string.
pub fn h264_marker_bytes() -> (r: Vec<u8>)
    ensures
        r@ == h264_marker(),
{
    let mut v: Vec<u8> = Vec::new();
    v.push(104u8);
    v.push(50u8);
    v.push(54u8);
    v.push(52u8);
    assert(v@ =~= h264_marker());
    v
}

/// The target extension as a byte string.
pub fn target_extension_bytes() -> (r: Vec<u8>)
    ensures
        r@ == target_extension(),
{
    let mut v: Vec<u8> = Vec::new();
    v.push(109u8);
    v.push(107u8);
    v.push(118u8);
    assert(v@ =~= target_extension());
    v
}

/// Decides the capability gate: true iff the captured stderr of the
/// device-enumeration run contains the marker as a substring.
pub fn capability_supported(result: &ProcessResult) -> (r: bool)
    ensures
        r == is_substring(result.stderr_text@, nvenc_marker()),
{
    let marker = nvenc_marker_bytes();
    contains_bytes(&result.stderr_text, &marker)
}

/// Decides codec acceptance: true iff the captured stdout of the codec
/// probe contains the marker as a substring (a deliberately loose check:
/// any codec name with "h264" inside it also matches).
pub fn codec_output_matches(result: &ProcessResult) -> (r: bool)
    ensures
        r == is_substring(result.stdout_text@, h264_marker()),
{
    let marker = h264_marker_bytes();
    contains_bytes(&result.stdout_text, &marker)
}

/// The encoder binary, run for the capability gate and the transcode.
pub fn encoder_command() -> (r: &'static str)
    ensures
        r@ == "ffmpeg"@,
{
    "ffmpeg"
}

/// The probing binary, run for codec inspection.
pub fn probe_command() -> (r: &'static str)
    ensures
        r@ == "ffprobe"@,
{
    "ffprobe"
}

/// The argument vector of the capability gate: a synthetic null source,
/// the hardware encoder with its device-enumeration flag, output discarded.
pub fn capability_probe_args() -> (r: Vec<&'static str>)
    ensures
        r@.len() == 11,
        r@[0]@ == "-f"@,
        r@[1]@ == "lavfi"@,
        r@[2]@ == "-i"@,
        r@[3]@ == "nullsrc"@,
        r@[4]@ == "-c:v"@,
        r@[5]@ == "nvenc"@,
        r@[6]@ == "-gpu"@,
        r@[7]@ == "list"@,
        r@[8]@ == "-f"@,
        r@[9]@ == "null"@,
        r@[10]@ == "-"@,
{
    let mut v: Vec<&'static str> = Vec::new();
    v.push("-f");
    v.push("lavfi");
    v.push("-i");
    v.push("nullsrc");
    v.push("-c:v");
    v.push("nvenc");
    v.push("-gpu");
    v.push("list");
    v.push("-f");
    v.push("null");
    v.push("-");
    v
}

/// The argument vector of the codec probe on one candidate file: quiet
/// verbosity, the codec name of the first video stream, unwrapped output,
/// then the file path.
pub fn codec_probe_args<'a>(path: &'a str) -> (r: Vec<&'a str>)
    ensures
        r@.len() == 9,
        r@[0]@ == "-v"@,
        r@[1]@ == "quiet"@,
        r@[2]@ == "-show_entries"@,
        r@[3]@ == "stream=codec_name"@,
        r@[4]@ == "-select_streams"@,
        r@[5]@ == "v:0"@,
        r@[6]@ == "-of"@,
        r@[7]@ == "default=noprint_wrappers=1"@,
        r@[8] == path,
{
    let mut v: Vec<&'a str> = Vec::new();
    v.push("-v");
    v.push("quiet");
    v.push("-show_entries");
    v.push("stream=codec_name");
    v.push("-select_streams");
    v.push("v:0");
    v.push("-of");
    v.push("default=noprint_wrappers=1");
    v.push(path);
    v
}

/// The argument vector of the transcode run: hardware decode of the staged
/// input, all streams mapped and copied except video, which is encoded with
/// the target hardware encoder at the "slow" preset, into the staged output.
pub fn transcode_args<'a>(staged_input: &'a str, staged_output: &'a str) -> (r: Vec<&'a str>)
    ensures
        r@.len() == 13,
        r@[0]@ == "-c:v"@,
        r@[1]@ == "h264_cuvid"@,
        r@[2]@ == "-i"@,
        r@[3] == staged_input,
        r@[4]@ == "-map"@,
        r@[5]@ == "0"@,
        r@[6]@ == "-c"@,
        r@[7]@ == "copy"@,
        r@[8]@ == "-c:v"@,
        r@[9]@ == "hevc_nvenc"@,
        r@[10]@ == "-preset"@,
        r@[11]@ == "slow"@,
        r@[12] == staged_output,
{
    let mut v: Vec<&'a str> = Vec::new();
    v.push("-c:v");
    v.push("h264_cuvid");
    v.push("-i");
    v.push(staged_input);
    v.push("-map");
    v.push("0");
    v.push("-c");
    v.push("copy");
    v.push("-c:v");
    v.push("hevc_nvenc");
    v.push("-preset");
    v.push("slow");
    v.push(staged_output);
    v
}

} // verus!
