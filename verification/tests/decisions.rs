use batch_transcode::candidate::FileCandidate;
use batch_transcode::candidate::{apply_order, count_eligible};
use batch_transcode::probe::{
    capability_probe_args, capability_supported, codec_output_matches, codec_probe_args,
    encoder_command, probe_command, transcode_args, ProcessResult,
};
use batch_transcode::progress::{batch_progress, progress_percent};
use batch_transcode::text::{bytes_eq, contains_bytes, i64_decimal, u64_decimal};

fn b(s: &str) -> Vec<u8> {
    s.as_bytes().to_vec()
}

fn cand(path: &str, stem: &str, ext: &str) -> FileCandidate {
    FileCandidate { path: b(path), stem: b(stem), extension: b(ext) }
}

fn captured(stdout: &str, stderr: &str) -> ProcessResult {
    ProcessResult { success: true, stdout_text: b(stdout), stderr_text: b(stderr) }
}

#[test]
fn contains_finds_substring() {
    assert!(contains_bytes(&b("device 0 supports NVENC today"), &b("supports NVENC")));
    assert!(contains_bytes(&b("abc"), &b("abc")));
    assert!(contains_bytes(&b("abc"), &b("")));
    assert!(!contains_bytes(&b("supports NVENc"), &b("supports NVENC")));
    assert!(!contains_bytes(&b("ab"), &b("abc")));
}

#[test]
fn bytes_eq_is_exact() {
    assert!(bytes_eq(&b("mkv"), &b("mkv")));
    assert!(!bytes_eq(&b("mkv"), &b("mk")));
    assert!(!bytes_eq(&b("mkv"), &b("MKV")));
}

#[test]
fn decimal_renders_exactly() {
    assert_eq!(u64_decimal(0), b("0"));
    assert_eq!(u64_decimal(7), b("7"));
    assert_eq!(u64_decimal(1514764800), b("1514764800"));
    assert_eq!(i64_decimal(1514764800), b("1514764800"));
    assert_eq!(i64_decimal(-42), b("-42"));
    assert_eq!(i64_decimal(i64::MIN), b("-9223372036854775808"));
    assert_eq!(i64_decimal(i64::MAX), b("9223372036854775807"));
}

#[test]
fn capability_marker_decides_gate() {
    assert!(capability_supported(&captured("", "GPU #0 ... supports NVENC\n")));
    assert!(!capability_supported(&captured("", "GPU #0 ... no encoder found\n")));
    assert!(!capability_supported(&captured("supports NVENC", "")));
}

#[test]
fn codec_marker_decides_acceptance() {
    assert!(codec_output_matches(&captured("codec_name=h264\n", "")));
    assert!(!codec_output_matches(&captured("codec_name=hevc\n", "")));
    // the loose substring rule: a codec whose name contains the marker matches
    assert!(codec_output_matches(&captured("codec_name=xh264y\n", "")));
}

#[test]
fn command_names() {
    assert_eq!(encoder_command(), "ffmpeg");
    assert_eq!(probe_command(), "ffprobe");
}

#[test]
fn capability_args_exact() {
    let args = capability_probe_args();
    assert_eq!(
        args,
        vec!["-f", "lavfi", "-i", "nullsrc", "-c:v", "nvenc", "-gpu", "list", "-f", "null", "-"]
    );
}

#[test]
fn codec_args_exact() {
    let args = codec_probe_args("/media/a.mkv");
    assert_eq!(
        args,
        vec![
            "-v",
            "quiet",
            "-show_entries",
            "stream=codec_name",
            "-select_streams",
            "v:0",
            "-of",
            "default=noprint_wrappers=1",
            "/media/a.mkv",
        ]
    );
}

#[test]
fn transcode_args_exact() {
    let args = transcode_args("/stage/a.mkv", "/stage/a_1514764800.mkv");
    assert_eq!(
        args,
        vec![
            "-c:v",
            "h264_cuvid",
            "-i",
            "/stage/a.mkv",
            "-map",
            "0",
            "-c",
            "copy",
            "-c:v",
            "hevc_nvenc",
            "-preset",
            "slow",
            "/stage/a_1514764800.mkv",
        ]
    );
}

#[test]
fn eligibility_is_exact_and_case_sensitive() {
    assert!(cand("/m/a.mkv", "a", "mkv").is_eligible());
    assert!(!cand("/m/c.mp4", "c", "mp4").is_eligible());
    assert!(!cand("/m/d.MKV", "d", "MKV").is_eligible());
    assert!(!cand("/m/e", "e", "").is_eligible());
}

#[test]
fn eligible_count_counts_only_target_extension() {
    let list = vec![
        cand("/m/a.mkv", "a", "mkv"),
        cand("/m/b.mp4", "b", "mp4"),
        cand("/m/c.mkv", "c", "mkv"),
        cand("/m/d.avi", "d", "avi"),
        cand("/m/e.MKV", "e", "MKV"),
    ];
    assert_eq!(count_eligible(&list), 2);
}

#[test]
fn order_is_kept_or_reversed() {
    let list = vec![cand("/m/a.mkv", "a", "mkv"), cand("/m/b.mkv", "b", "mkv"), cand(
        "/m/c.mkv",
        "c",
        "mkv",
    )];
    let kept = apply_order(list, false);
    assert_eq!(kept.len(), 3);
    assert_eq!(kept[0].stem, b("a"));
    assert_eq!(kept[2].stem, b("c"));
    let reversed = apply_order(kept, true);
    assert_eq!(reversed.len(), 3);
    assert_eq!(reversed[0].stem, b("c"));
    assert_eq!(reversed[1].stem, b("b"));
    assert_eq!(reversed[2].stem, b("a"));
}

#[test]
fn progress_report_carries_index_total_percent() {
    let report = batch_progress(2, 3);
    assert_eq!(report.index, 2);
    assert_eq!(report.total, 3);
    assert_eq!(report.percent, 66);
}

#[test]
fn progress_is_floor_percentage_and_monotone() {
    assert_eq!(progress_percent(0, 4), 0);
    assert_eq!(progress_percent(1, 4), 25);
    assert_eq!(progress_percent(1, 3), 33);
    assert_eq!(progress_percent(2, 3), 66);
    assert_eq!(progress_percent(3, 3), 100);
    let total = 7u64;
    let mut last = 0u64;
    for i in 0..=total {
        let p = progress_percent(i, total);
        assert!(p >= last);
        assert!(p <= 100);
        last = p;
    }
}
