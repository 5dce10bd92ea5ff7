//! A model of what one job does to the filesystem: each present path mapped
//! to its contents. The runner's copies, the transcode and the removals are
//! each described by their effect on this model, an invariant ties the
//! machine's phase to the model, and the safety laws of the pipeline follow:
//! a skipped or failed candidate leaves its original byte-identical, a
//! stage-in failure stages no output, and a successful job cleans up after
//! itself.
use vstd::prelude::*;
use crate::job::{
    pending_action, spec_job_step, CleanupCause, FailReason, JobAction, JobEvent, JobPhase,
    SkipReason, TranscodeJob,
};

verus! {

/// The filesystem as the pipeline sees it: the contents behind each path
/// that exists.
pub type DiskModel = Map<Seq<u8>, Seq<u8>>;

/// What one job asks of the filesystem it starts in: its paths pairwise
/// distinct, the original present, and nothing staged yet.
pub open spec fn job_pre(job: TranscodeJob, fs0: DiskModel) -> bool {
    &&& job.wf()
    &&& fs0.contains_key(job.source@)
    &&& !fs0.contains_key(job.staged_input@)
    &&& !fs0.contains_key(job.staged_output@)
}

/// The filesystem after a successful stage-in copy.
pub open spec fn staged_fs(job: TranscodeJob, fs0: DiskModel) -> DiskModel {
    fs0.insert(job.staged_input@, fs0[job.source@])
}

/// The filesystem once the transcode has written `out` to the staged output.
pub open spec fn transcoded_fs(job: TranscodeJob, fs0: DiskModel, out: Seq<u8>) -> DiskModel {
    staged_fs(job, fs0).insert(job.staged_output@, out)
}

/// The filesystem once the staged output `out` has been copied back over
/// the original.
pub open spec fn replaced_fs(job: TranscodeJob, fs0: DiskModel, out: Seq<u8>) -> DiskModel {
    transcoded_fs(job, fs0, out).insert(job.source@, out)
}

/// What performing `action` with the outcome carried by `event` does to the
/// filesystem. `out` names the bytes the transcode wrote; it is arbitrary.
/// A failed copy writes nothing; a failed transcode may or may not have
/// created the staged output; a failed removal leaves the file in place.
pub open spec fn action_effect(
    job: TranscodeJob,
    action: JobAction,
    event: JobEvent,
    out: Seq<u8>,
    fs0: DiskModel,
    fs1: DiskModel,
) -> bool {
    match (action, event) {
        (JobAction::ProbeCodec, JobEvent::CodecProbed { .. }) => fs1 == fs0,
        (JobAction::StageIn, JobEvent::StageInFinished { ok }) => if ok {
            fs0.contains_key(job.source@) && fs1 == fs0.insert(
                job.staged_input@,
                fs0[job.source@],
            )
        } else {
            fs1 == fs0
        },
        (JobAction::Transcode, JobEvent::TranscodeFinished { exit_ok }) => if exit_ok {
            fs1 == fs0.insert(job.staged_output@, out)
        } else {
            fs1 == fs0 || fs1 == fs0.insert(job.staged_output@, out)
        },
        (JobAction::StageOut, JobEvent::StageOutFinished { ok }) => if ok {
            fs0.contains_key(job.staged_output@) && fs1 == fs0.insert(
                job.source@,
                fs0[job.staged_output@],
            )
        } else {
            fs1 == fs0
        },
        (JobAction::RemoveStagedOutput, JobEvent::OutputRemoved { ok }) => if ok {
            fs1 == fs0.remove(job.staged_output@)
        } else {
            fs1 == fs0
        },
        (JobAction::RemoveStagedInput, JobEvent::InputRemoved { ok }) => if ok {
            fs1 == fs0.remove(job.staged_input@)
        } else {
            fs1 == fs0
        },
        (JobAction::Report, _) => fs1 == fs0,
        _ => false,
    }
}

/// The invariant tying the machine's phase to the filesystem: what the
/// staging area and the original look like in each phase of one job that
/// started against `fs0`.
pub open spec fn job_inv(job: TranscodeJob, phase: JobPhase, fs0: DiskModel, fs: DiskModel) -> bool {
    &&& job_pre(job, fs0)
    &&& match phase {
        JobPhase::AwaitCodecProbe => fs == fs0,
        JobPhase::AwaitStageIn => fs == fs0,
        JobPhase::AwaitTranscode => fs == staged_fs(job, fs0),
        JobPhase::AwaitStageOut => exists|out: Seq<u8>| fs == #[trigger] transcoded_fs(
            job,
            fs0,
            out,
        ),
        JobPhase::AwaitRemoveOutput { cause } => match cause {
            CleanupCause::Succeeded => exists|out: Seq<u8>| fs == #[trigger] replaced_fs(
                job,
                fs0,
                out,
            ),
            CleanupCause::TranscodeFailed => fs == staged_fs(job, fs0) || exists|out: Seq<u8>|
                fs == #[trigger] transcoded_fs(job, fs0, out),
            CleanupCause::StageOutFailed => exists|out: Seq<u8>| fs == #[trigger] transcoded_fs(
                job,
                fs0,
                out,
            ),
        },
        JobPhase::AwaitRemoveInput { cause } => match cause {
            CleanupCause::Succeeded => exists|out: Seq<u8>|
                fs == #[trigger] replaced_fs(job, fs0, out) || fs == replaced_fs(
                    job,
                    fs0,
                    out,
                ).remove(job.staged_output@),
            CleanupCause::TranscodeFailed => fs == staged_fs(job, fs0) || exists|out: Seq<u8>|
                fs == #[trigger] transcoded_fs(job, fs0, out),
            CleanupCause::StageOutFailed => fs == staged_fs(job, fs0) || exists|out: Seq<u8>|
                fs == #[trigger] transcoded_fs(job, fs0, out),
        },
        JobPhase::Skipped { .. } => fs == fs0,
        JobPhase::Failed { reason } => match reason {
            FailReason::StageIn => fs == fs0,
            FailReason::Transcode | FailReason::StageOut => {
                &&& fs.contains_key(job.source@)
                &&& fs[job.source@] == fs0[job.source@]
            },
        },
        JobPhase::Done => fs.contains_key(job.source@),
    }
}

/// A job begins against the filesystem it starts in: the invariant holds in
/// both phases a candidate can enter at.
pub proof fn lemma_job_init(job: TranscodeJob, phase: JobPhase, fs0: DiskModel)
    requires
        job_pre(job, fs0),
        phase == JobPhase::AwaitCodecProbe || phase matches JobPhase::Skipped { .. },
    ensures
        job_inv(job, phase, fs0, fs0),
{
}

/// One step preserves the invariant: if the runner performed the phase's
/// pending action, and the filesystem moved as that action's outcome
/// allows, the invariant holds again in the next phase.
pub proof fn lemma_job_step_preserves_inv(
    job: TranscodeJob,
    phase: JobPhase,
    event: JobEvent,
    out: Seq<u8>,
    fs0: DiskModel,
    fs: DiskModel,
    fs1: DiskModel,
)
    requires
        job_inv(job, phase, fs0, fs),
        action_effect(job, pending_action(phase), event, out, fs, fs1),
    ensures
        job_inv(job, spec_job_step(phase, event).0, fs0, fs1),
{
    let src = job.source@;
    let sin = job.staged_input@;
    let sout = job.staged_output@;
    match (phase, event) {
        (JobPhase::AwaitCodecProbe, JobEvent::CodecProbed { .. }) => {},
        (JobPhase::AwaitStageIn, JobEvent::StageInFinished { ok }) => {},
        (JobPhase::AwaitTranscode, JobEvent::TranscodeFinished { exit_ok }) => {
            if exit_ok {
                assert(fs1 == transcoded_fs(job, fs0, out));
            } else {
                if fs1 != fs {
                    assert(fs1 == transcoded_fs(job, fs0, out));
                }
            }
        },
        (JobPhase::AwaitStageOut, JobEvent::StageOutFinished { ok }) => {
            let c = choose|o: Seq<u8>| fs == #[trigger] transcoded_fs(job, fs0, o);
            if ok {
                assert(fs[sout] == c);
                assert(fs1 == replaced_fs(job, fs0, c));
            } else {
                assert(fs1 == transcoded_fs(job, fs0, c));
            }
        },
        (JobPhase::AwaitRemoveOutput { cause }, JobEvent::OutputRemoved { ok }) => {
            match cause {
                CleanupCause::Succeeded => {
                    let c = choose|o: Seq<u8>| fs == #[trigger] replaced_fs(job, fs0, o);
                    if ok {
                        assert(fs1 == replaced_fs(job, fs0, c).remove(sout));
                    } else {
                        assert(fs1 == replaced_fs(job, fs0, c));
                    }
                },
                CleanupCause::TranscodeFailed | CleanupCause::StageOutFailed => {
                    if fs == staged_fs(job, fs0) {
                        if ok {
                            assert(fs1 =~= staged_fs(job, fs0));
                        }
                    } else {
                        let c = choose|o: Seq<u8>| fs == #[trigger] transcoded_fs(job, fs0, o);
                        if ok {
                            assert(fs1 =~= staged_fs(job, fs0));
                        } else {
                            assert(fs1 == transcoded_fs(job, fs0, c));
                        }
                    }
                },
            }
        },
        (JobPhase::AwaitRemoveInput { cause }, JobEvent::InputRemoved { ok }) => {
            match cause {
                CleanupCause::Succeeded => {
                    let c = choose|o: Seq<u8>|
                        fs == replaced_fs(job, fs0, o) || fs == replaced_fs(job, fs0, o).remove(
                            job.staged_output@,
                        );
                    assert(fs.contains_key(src));
                    assert(fs1.contains_key(src));
                },
                CleanupCause::TranscodeFailed | CleanupCause::StageOutFailed => {
                    if fs != staged_fs(job, fs0) {
                        let c = choose|o: Seq<u8>| fs == #[trigger] transcoded_fs(job, fs0, o);
                        assert(fs == transcoded_fs(job, fs0, c));
                    }
                    assert(fs.contains_key(src) && fs[src] == fs0[src]);
                    assert(fs1.contains_key(src) && fs1[src] == fs0[src]);
                },
            }
        },
        _ => {},
    }
}

/// A skipped candidate leaves the filesystem exactly as it was: its file
/// byte-identical, and nothing of it in the staging directory.
pub proof fn lemma_skip_leaves_no_trace(
    job: TranscodeJob,
    reason: SkipReason,
    fs0: DiskModel,
    fs: DiskModel,
)
    requires
        job_inv(job, JobPhase::Skipped { reason }, fs0, fs),
    ensures
        fs == fs0,
        fs[job.source@] == fs0[job.source@],
        !fs.contains_key(job.staged_input@),
        !fs.contains_key(job.staged_output@),
{
}

/// A job that fails at stage-in has staged nothing: afterwards no staged
/// output exists, and no staged input either.
pub proof fn lemma_stage_in_failure_stages_nothing(job: TranscodeJob, fs0: DiskModel, fs: DiskModel)
    requires
        job_inv(job, JobPhase::Failed { reason: FailReason::StageIn }, fs0, fs),
    ensures
        !fs.contains_key(job.staged_output@),
        !fs.contains_key(job.staged_input@),
        fs[job.source@] == fs0[job.source@],
{
}

/// A job that fails — at stage-in, at transcode (non-zero exit) or at
/// stage-out — never modifies the original source file: it is replaced only
/// after a zero exit and a successful copy-back.
pub proof fn lemma_failure_preserves_original(
    job: TranscodeJob,
    reason: FailReason,
    fs0: DiskModel,
    fs: DiskModel,
)
    requires
        job_inv(job, JobPhase::Failed { reason }, fs0, fs),
    ensures
        fs.contains_key(job.source@),
        fs[job.source@] == fs0[job.source@],
{
}

/// After a successful job whose removals succeeded, both staged files are
/// absent from the staging directory and the original carries the bytes the
/// staged output held.
pub proof fn lemma_success_cleans_up(
    job: TranscodeJob,
    out: Seq<u8>,
    fs0: DiskModel,
    fs: DiskModel,
    fs1: DiskModel,
)
    requires
        job_inv(job, JobPhase::AwaitRemoveInput { cause: CleanupCause::Succeeded }, fs0, fs),
        !fs.contains_key(job.staged_output@),
        action_effect(
            job,
            JobAction::RemoveStagedInput,
            JobEvent::InputRemoved { ok: true },
            out,
            fs,
            fs1,
        ),
    ensures
        spec_job_step(
            JobPhase::AwaitRemoveInput { cause: CleanupCause::Succeeded },
            JobEvent::InputRemoved { ok: true },
        ).0 == JobPhase::Done,
        !fs1.contains_key(job.staged_input@),
        !fs1.contains_key(job.staged_output@),
        fs1.contains_key(job.source@),
        fs1[job.source@] == fs[job.source@],
{
    let c = choose|o: Seq<u8>|
        fs == replaced_fs(job, fs0, o) || fs == replaced_fs(job, fs0, o).remove(job.staged_output@);
    assert(fs == replaced_fs(job, fs0, c).remove(job.staged_output@));
}

/// Cleanup is idempotent: removing an already removed path is a no-op.
pub proof fn lemma_cleanup_idempotent(fs: DiskModel, path: Seq<u8>)
    ensures
        fs.remove(path).remove(path) == fs.remove(path),
{
    assert(fs.remove(path).remove(path) =~= fs.remove(path));
}

/// The phase the machine is in after a whole run of reported events.
pub open spec fn run_phase(phase: JobPhase, events: Seq<JobEvent>) -> JobPhase
    decreases events.len(),
{
    if events.len() == 0 {
        phase
    } else {
        run_phase(spec_job_step(phase, events[0]).0, events.drop_first())
    }
}

/// A feasible run: each filesystem in `fss` can follow from the one before
/// it when the runner performs the phase's pending action and reports the
/// matching event; `outs` names what each transcode wrote.
pub open spec fn feasible_run(
    job: TranscodeJob,
    phase: JobPhase,
    events: Seq<JobEvent>,
    outs: Seq<Seq<u8>>,
    fss: Seq<DiskModel>,
    fs: DiskModel,
) -> bool
    decreases events.len(),
{
    &&& fss.len() == events.len()
    &&& outs.len() == events.len()
    &&& (events.len() > 0 ==> {
        &&& action_effect(job, pending_action(phase), events[0], outs[0], fs, fss[0])
        &&& feasible_run(
            job,
            spec_job_step(phase, events[0]).0,
            events.drop_first(),
            outs.drop_first(),
            fss.drop_first(),
            fss[0],
        )
    })
}

/// The filesystem a run ends in.
pub open spec fn run_end_fs(fss: Seq<DiskModel>, fs: DiskModel) -> DiskModel {
    if fss.len() == 0 {
        fs
    } else {
        fss.last()
    }
}

/// Over any feasible run from a phase where the invariant holds, the
/// invariant holds again at the end of the run.
pub proof fn lemma_run_preserves_inv(
    job: TranscodeJob,
    phase: JobPhase,
    events: Seq<JobEvent>,
    outs: Seq<Seq<u8>>,
    fss: Seq<DiskModel>,
    fs0: DiskModel,
    fs: DiskModel,
)
    requires
        job_inv(job, phase, fs0, fs),
        feasible_run(job, phase, events, outs, fss, fs),
    ensures
        job_inv(job, run_phase(phase, events), fs0, run_end_fs(fss, fs)),
    decreases events.len(),
{
    if events.len() > 0 {
        lemma_job_step_preserves_inv(job, phase, events[0], outs[0], fs0, fs, fss[0]);
        lemma_run_preserves_inv(
            job,
            spec_job_step(phase, events[0]).0,
            events.drop_first(),
            outs.drop_first(),
            fss.drop_first(),
            fs0,
            fss[0],
        );
        if events.len() > 1 {
            assert(fss.drop_first().last() == fss.last());
        }
    }
}

/// Whatever events a job's run reports: if it ends skipped or failed, the
/// original file is exactly what it was when the job began.
pub proof fn lemma_no_failed_run_modifies_original(
    job: TranscodeJob,
    events: Seq<JobEvent>,
    outs: Seq<Seq<u8>>,
    fss: Seq<DiskModel>,
    fs0: DiskModel,
)
    requires
        job_pre(job, fs0),
        feasible_run(job, JobPhase::AwaitCodecProbe, events, outs, fss, fs0),
        (run_phase(JobPhase::AwaitCodecProbe, events) matches JobPhase::Skipped { .. }) || (
        run_phase(JobPhase::AwaitCodecProbe, events) matches JobPhase::Failed { .. }),
    ensures
        run_end_fs(fss, fs0).contains_key(job.source@),
        run_end_fs(fss, fs0)[job.source@] == fs0[job.source@],
{
    lemma_job_init(job, JobPhase::AwaitCodecProbe, fs0);
    lemma_run_preserves_inv(job, JobPhase::AwaitCodecProbe, events, outs, fss, fs0, fs0);
}

/// Whatever events a job's run reports: if it ends skipped — its codec
/// probe output lacked the marker — the filesystem is exactly what it was:
/// the file byte-identical, nothing of it ever staged.
pub proof fn lemma_skipped_run_changes_nothing(
    job: TranscodeJob,
    events: Seq<JobEvent>,
    outs: Seq<Seq<u8>>,
    fss: Seq<DiskModel>,
    fs0: DiskModel,
)
    requires
        job_pre(job, fs0),
        feasible_run(job, JobPhase::AwaitCodecProbe, events, outs, fss, fs0),
        run_phase(JobPhase::AwaitCodecProbe, events) matches JobPhase::Skipped { .. },
    ensures
        run_end_fs(fss, fs0) == fs0,
        !run_end_fs(fss, fs0).contains_key(job.staged_input@),
        !run_end_fs(fss, fs0).contains_key(job.staged_output@),
{
    lemma_job_init(job, JobPhase::AwaitCodecProbe, fs0);
    lemma_run_preserves_inv(job, JobPhase::AwaitCodecProbe, events, outs, fss, fs0, fs0);
}

/// Whatever events a job's run reports: if it ends failed at stage-in, the
/// staging directory holds neither a staged input nor a staged output of it.
pub proof fn lemma_stage_in_failed_run_stages_nothing(
    job: TranscodeJob,
    events: Seq<JobEvent>,
    outs: Seq<Seq<u8>>,
    fss: Seq<DiskModel>,
    fs0: DiskModel,
)
    requires
        job_pre(job, fs0),
        feasible_run(job, JobPhase::AwaitCodecProbe, events, outs, fss, fs0),
        run_phase(JobPhase::AwaitCodecProbe, events) == (JobPhase::Failed {
            reason: FailReason::StageIn,
        }),
    ensures
        !run_end_fs(fss, fs0).contains_key(job.staged_input@),
        !run_end_fs(fss, fs0).contains_key(job.staged_output@),
{
    lemma_job_init(job, JobPhase::AwaitCodecProbe, fs0);
    lemma_run_preserves_inv(job, JobPhase::AwaitCodecProbe, events, outs, fss, fs0, fs0);
}

} // verus!
