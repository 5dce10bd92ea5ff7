//! One candidate's staged transcode job: the staging paths built for it and
//! the per-file state machine (probe, stage-in, transcode, stage-out,
//! cleanup), driven by events the runner reports back. Every per-item
//! failure is terminal for the item only; the machine never aborts a batch.
use vstd::prelude::*;
use crate::candidate::{eligible, FileCandidate};
use crate::probe::{
    codec_output_matches, h264_marker, target_extension, target_extension_bytes, ProcessResult,
};
use crate::text::{bytes_copy, bytes_eq, bytes_push_all, i64_decimal, is_substring,
    signed_decimal_of};

verus! {

/// Why a candidate was passed over without being processed.
#[derive(Clone, Copy, PartialEq, Eq, Structural, Debug)]
pub enum SkipReason {
    /// Its extension is not the target container extension.
    Extension,
    /// The codec probe's output did not contain the expected marker.
    Codec,
}

/// The phase at which a job was abandoned.
#[derive(Clone, Copy, PartialEq, Eq, Structural, Debug)]
pub enum FailReason {
    /// The copy into the staging directory failed.
    StageIn,
    /// The transcode process exited with a non-zero status.
    Transcode,
    /// The copy back over the original failed.
    StageOut,
}

/// What the cleanup phase is cleaning up after.
#[derive(Clone, Copy, PartialEq, Eq, Structural, Debug)]
pub enum CleanupCause {
    /// The original has been replaced; the job will end as done.
    Succeeded,
    /// The transcode exited non-zero; the job will end as failed.
    TranscodeFailed,
    /// The copy back failed; the job will end as failed.
    StageOutFailed,
}

/// The states of the per-candidate machine. The `Await` states wait for the
/// runner to report the result of the pending action; `Skipped`, `Failed`
/// and `Done` are terminal per item.
#[derive(Clone, Copy, PartialEq, Eq, Structural, Debug)]
#[allow(inconsistent_fields)]
pub enum JobPhase {
    AwaitCodecProbe,
    AwaitStageIn,
    AwaitTranscode,
    AwaitStageOut,
    AwaitRemoveOutput { cause: CleanupCause },
    AwaitRemoveInput { cause: CleanupCause },
    Skipped { reason: SkipReason },
    Failed { reason: FailReason },
    Done,
}

/// What the runner reports back after performing the pending action.
pub enum JobEvent {
    /// The codec probe ran; what it captured.
    CodecProbed { result: ProcessResult },
    /// The copy into staging finished or failed.
    StageInFinished { ok: bool },
    /// The transcode process exited; true iff its status was zero.
    TranscodeFinished { exit_ok: bool },
    /// The copy back over the original finished or failed.
    StageOutFinished { ok: bool },
    /// Removal of the staged output was attempted.
    OutputRemoved { ok: bool },
    /// Removal of the staged input was attempted.
    InputRemoved { ok: bool },
}

/// What the runner must do next. `Report` asks only for logging of a
/// terminal outcome; it touches no file.
#[derive(Clone, Copy, PartialEq, Eq, Structural, Debug)]
pub enum JobAction {
    ProbeCodec,
    StageIn,
    Transcode,
    StageOut,
    RemoveStagedOutput,
    RemoveStagedInput,
    Report,
}

/// The three paths of one job: the original, its staged copy, and the
/// transcode's staged output.
pub struct TranscodeJob {
    pub source: Vec<u8>,
    pub staged_input: Vec<u8>,
    pub staged_output: Vec<u8>,
}

/// The staged input path: the staging directory, a separator, and the
/// candidate's original file name (stem dot extension).
pub open spec fn spec_staged_input_path(staging_dir: Seq<u8>, stem: Seq<u8>, extension: Seq<u8>) -> Seq<
    u8,
> {
    staging_dir + seq![47u8] + stem + seq![46u8] + extension
}

/// The staged output path: the staging directory, a separator, the stem, an
/// underscore, the timestamp in decimal, a dot, and the target extension.
pub open spec fn spec_staged_output_path(staging_dir: Seq<u8>, stem: Seq<u8>, ts: int) -> Seq<u8> {
    staging_dir + seq![47u8] + stem + seq![95u8] + signed_decimal_of(ts) + seq![46u8]
        + target_extension()
}

/// The two staged names of one job can never collide, whatever the
/// timestamp: right after the stem the input carries a dot where the
/// output carries an underscore.
pub proof fn lemma_staged_paths_distinct(
    staging_dir: Seq<u8>,
    stem: Seq<u8>,
    extension: Seq<u8>,
    ts: int,
)
    ensures
        spec_staged_input_path(staging_dir, stem, extension) != spec_staged_output_path(
            staging_dir,
            stem,
            ts,
        ),
{
    let a = spec_staged_input_path(staging_dir, stem, extension);
    let b = spec_staged_output_path(staging_dir, stem, ts);
    let p = staging_dir.len() + 1 + stem.len();
    crate::text::lemma_decimal_nonempty(ts);
    assert(a[p as int] == 46u8);
    assert(b[p as int] == 95u8);
}

impl TranscodeJob {
    /// The three paths are pairwise distinct, so a write to one never
    /// touches another. Holds whenever the staging directory is a
    /// different directory from the one holding the source.
    pub open spec fn wf(self) -> bool {
        &&& self.source@ != self.staged_input@
        &&& self.source@ != self.staged_output@
        &&& self.staged_input@ != self.staged_output@
    }

    /// Decides well-formedness, for a runner to check before staging.
    pub fn check_distinct_paths(&self) -> (r: bool)
        ensures
            r == self.wf(),
    {
        let a = bytes_eq(&self.source, &self.staged_input);
        let b = bytes_eq(&self.source, &self.staged_output);
        let c = bytes_eq(&self.staged_input, &self.staged_output);
        !a && !b && !c
    }
}

/// Builds the job for one eligible candidate from the staging directory and
/// the timestamp used for temp naming.
pub fn make_job(c: &FileCandidate, staging_dir: &Vec<u8>, ts: i64) -> (j: TranscodeJob)
    ensures
        j.source@ == c.path@,
        j.staged_input@ == spec_staged_input_path(staging_dir@, c.stem@, c.extension@),
        j.staged_output@ == spec_staged_output_path(staging_dir@, c.stem@, ts as int),
        j.staged_input@ != j.staged_output@,
{
    let source = bytes_copy(&c.path);
    let mut staged_input = bytes_copy(staging_dir);
    staged_input.push(47);
    bytes_push_all(&mut staged_input, &c.stem);
    staged_input.push(46);
    bytes_push_all(&mut staged_input, &c.extension);
    let mut staged_output = bytes_copy(staging_dir);
    staged_output.push(47);
    bytes_push_all(&mut staged_output, &c.stem);
    staged_output.push(95);
    let ts_text = i64_decimal(ts);
    bytes_push_all(&mut staged_output, &ts_text);
    staged_output.push(46);
    let ext = target_extension_bytes();
    bytes_push_all(&mut staged_output, &ext);
    proof {
        assert(staged_input@ =~= spec_staged_input_path(staging_dir@, c.stem@, c.extension@));
        assert(staged_output@ =~= spec_staged_output_path(staging_dir@, c.stem@, ts as int));
        lemma_staged_paths_distinct(staging_dir@, c.stem@, c.extension@, ts as int);
    }
    TranscodeJob { source, staged_input, staged_output }
}

/// Where a candidate enters the machine: eligible candidates go on to the
/// codec probe, all others are skipped at once.
pub open spec fn spec_start_job(c: FileCandidate) -> (JobPhase, JobAction) {
    if eligible(c) {
        (JobPhase::AwaitCodecProbe, JobAction::ProbeCodec)
    } else {
        (JobPhase::Skipped { reason: SkipReason::Extension }, JobAction::Report)
    }
}

/// Starts the machine on one candidate.
pub fn start_job(c: &FileCandidate) -> (r: (JobPhase, JobAction))
    ensures
        r == spec_start_job(*c),
{
    if c.is_eligible() {
        (JobPhase::AwaitCodecProbe, JobAction::ProbeCodec)
    } else {
        (JobPhase::Skipped { reason: SkipReason::Extension }, JobAction::Report)
    }
}

/// The action pending while the machine sits in `phase`: the one the runner
/// performs before it reports the next event.
pub open spec fn pending_action(phase: JobPhase) -> JobAction {
    match phase {
        JobPhase::AwaitCodecProbe => JobAction::ProbeCodec,
        JobPhase::AwaitStageIn => JobAction::StageIn,
        JobPhase::AwaitTranscode => JobAction::Transcode,
        JobPhase::AwaitStageOut => JobAction::StageOut,
        JobPhase::AwaitRemoveOutput { .. } => JobAction::RemoveStagedOutput,
        JobPhase::AwaitRemoveInput { .. } => JobAction::RemoveStagedInput,
        _ => JobAction::Report,
    }
}

/// The whole transition table of the per-candidate machine.
pub open spec fn spec_job_step(phase: JobPhase, event: JobEvent) -> (JobPhase, JobAction) {
    match (phase, event) {
        (JobPhase::AwaitCodecProbe, JobEvent::CodecProbed { result }) => {
            if is_substring(result.stdout_text@, h264_marker()) {
                (JobPhase::AwaitStageIn, JobAction::StageIn)
            } else {
                (JobPhase::Skipped { reason: SkipReason::Codec }, JobAction::Report)
            }
        },
        (JobPhase::AwaitStageIn, JobEvent::StageInFinished { ok }) => {
            if ok {
                (JobPhase::AwaitTranscode, JobAction::Transcode)
            } else {
                (JobPhase::Failed { reason: FailReason::StageIn }, JobAction::Report)
            }
        },
        (JobPhase::AwaitTranscode, JobEvent::TranscodeFinished { exit_ok }) => {
            if exit_ok {
                (JobPhase::AwaitStageOut, JobAction::StageOut)
            } else {
                (
                    JobPhase::AwaitRemoveOutput { cause: CleanupCause::TranscodeFailed },
                    JobAction::RemoveStagedOutput,
                )
            }
        },
        (JobPhase::AwaitStageOut, JobEvent::StageOutFinished { ok }) => {
            if ok {
                (
                    JobPhase::AwaitRemoveOutput { cause: CleanupCause::Succeeded },
                    JobAction::RemoveStagedOutput,
                )
            } else {
                (
                    JobPhase::AwaitRemoveOutput { cause: CleanupCause::StageOutFailed },
                    JobAction::RemoveStagedOutput,
                )
            }
        },
        (JobPhase::AwaitRemoveOutput { cause }, JobEvent::OutputRemoved { .. }) => {
            (JobPhase::AwaitRemoveInput { cause }, JobAction::RemoveStagedInput)
        },
        (JobPhase::AwaitRemoveInput { cause }, JobEvent::InputRemoved { .. }) => {
            match cause {
                CleanupCause::Succeeded => (JobPhase::Done, JobAction::Report),
                CleanupCause::TranscodeFailed => (
                    JobPhase::Failed { reason: FailReason::Transcode },
                    JobAction::Report,
                ),
                CleanupCause::StageOutFailed => (
                    JobPhase::Failed { reason: FailReason::StageOut },
                    JobAction::Report,
                ),
            }
        },
        _ => (phase, pending_action(phase)),
    }
}

/// The pending action of a phase, for the runner.
pub fn phase_action(phase: JobPhase) -> (r: JobAction)
    ensures
        r == pending_action(phase),
{
    match phase {
        JobPhase::AwaitCodecProbe => JobAction::ProbeCodec,
        JobPhase::AwaitStageIn => JobAction::StageIn,
        JobPhase::AwaitTranscode => JobAction::Transcode,
        JobPhase::AwaitStageOut => JobAction::StageOut,
        JobPhase::AwaitRemoveOutput { .. } => JobAction::RemoveStagedOutput,
        JobPhase::AwaitRemoveInput { .. } => JobAction::RemoveStagedInput,
        _ => JobAction::Report,
    }
}

/// Advances the machine by one event. Removal failures are warn-only: they
/// never change the job's outcome.
pub fn job_step(phase: JobPhase, event: JobEvent) -> (r: (JobPhase, JobAction))
    ensures
        r == spec_job_step(phase, event),
{
    match (phase, event) {
        (JobPhase::AwaitCodecProbe, JobEvent::CodecProbed { result }) => {
            if codec_output_matches(&result) {
                (JobPhase::AwaitStageIn, JobAction::StageIn)
            } else {
                (JobPhase::Skipped { reason: SkipReason::Codec }, JobAction::Report)
            }
        },
        (JobPhase::AwaitStageIn, JobEvent::StageInFinished { ok }) => {
            if ok {
                (JobPhase::AwaitTranscode, JobAction::Transcode)
            } else {
                (JobPhase::Failed { reason: FailReason::StageIn }, JobAction::Report)
            }
        },
        (JobPhase::AwaitTranscode, JobEvent::TranscodeFinished { exit_ok }) => {
            if exit_ok {
                (JobPhase::AwaitStageOut, JobAction::StageOut)
            } else {
                (
                    JobPhase::AwaitRemoveOutput { cause: CleanupCause::TranscodeFailed },
                    JobAction::RemoveStagedOutput,
                )
            }
        },
        (JobPhase::AwaitStageOut, JobEvent::StageOutFinished { ok }) => {
            if ok {
                (
                    JobPhase::AwaitRemoveOutput { cause: CleanupCause::Succeeded },
                    JobAction::RemoveStagedOutput,
                )
            } else {
                (
                    JobPhase::AwaitRemoveOutput { cause: CleanupCause::StageOutFailed },
                    JobAction::RemoveStagedOutput,
                )
            }
        },
        (JobPhase::AwaitRemoveOutput { cause }, JobEvent::OutputRemoved { .. }) => {
            (JobPhase::AwaitRemoveInput { cause }, JobAction::RemoveStagedInput)
        },
        (JobPhase::AwaitRemoveInput { cause }, JobEvent::InputRemoved { .. }) => {
            match cause {
                CleanupCause::Succeeded => (JobPhase::Done, JobAction::Report),
                CleanupCause::TranscodeFailed => (
                    JobPhase::Failed { reason: FailReason::Transcode },
                    JobAction::Report,
                ),
                CleanupCause::StageOutFailed => (
                    JobPhase::Failed { reason: FailReason::StageOut },
                    JobAction::Report,
                ),
            }
        },
        (p, _) => {
            let a = phase_action(p);
            (p, a)
        },
    }
}

/// How many of a sequence of candidates enter the machine asking for a
/// codec probe.
pub open spec fn probing_count(s: Seq<FileCandidate>) -> nat
    decreases s.len(),
{
    if s.len() == 0 {
        0
    } else {
        probing_count(s.drop_last()) + if spec_start_job(s.last()).1 == JobAction::ProbeCodec {
            1nat
        } else {
            0nat
        }
    }
}

/// Exactly the eligible candidates reach the probe stage: of a sequence
/// with N candidates carrying the target extension and M without, exactly
/// N enter the machine asking for a codec probe.
pub proof fn lemma_exactly_eligible_reach_probe(s: Seq<FileCandidate>)
    ensures
        probing_count(s) == crate::candidate::eligible_count(s),
    decreases s.len(),
{
    if s.len() > 0 {
        lemma_exactly_eligible_reach_probe(s.drop_last());
    }
}

/// The machine hands the runner exactly the action that its new state waits
/// for: what `spec_job_step` asks next is the new phase's pending action.
pub proof fn lemma_step_action_coherent(phase: JobPhase, event: JobEvent)
    ensures
        spec_job_step(phase, event).1 == pending_action(spec_job_step(phase, event).0),
{
}

} // verus!
