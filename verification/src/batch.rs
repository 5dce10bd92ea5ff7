//! The batch machine around the per-file jobs: the capability gate runs
//! first and fatally aborts the run when the hardware encoder is unusable,
//! then the two directories are validated, then the tree is scanned once,
//! and only then are candidates handed out one at a time, with progress
//! reported for each. Fatal errors stop the run; per-item outcomes never do.
use vstd::prelude::*;
use crate::probe::{capability_supported, nvenc_marker, ProcessResult};
use crate::progress::{progress_percent, spec_percent};
use crate::text::is_substring;

verus! {

/// The errors that abort the whole run before or during startup.
#[derive(Clone, Copy, PartialEq, Eq, Structural, Debug)]
pub enum FatalError {
    /// The encoder's device enumeration did not show the capability marker.
    CapabilityUnsupported,
    /// The source path is missing or not a directory.
    InvalidSourceDirectory,
    /// The staging path is missing or not a directory.
    InvalidStagingDirectory,
    /// The directory scan hit an unreadable entry; no partial results.
    Traversal,
}

/// The states of the batch machine.
#[derive(Clone, Copy, PartialEq, Eq, Structural, Debug)]
pub enum BatchPhase {
    /// Waiting for the capability gate's captured stderr.
    AwaitCapability,
    /// Waiting for the directory validation results.
    AwaitDirectories,
    /// Waiting for the scan of the source tree.
    AwaitScan,
    /// Candidate `index` of `total` is being handled.
    Running { index: u64, total: u64 },
    /// A fatal error ended the run; no further file is touched.
    Aborted { error: FatalError },
    /// Every candidate was handled.
    Finished,
}

/// The resolved configuration the run consumes, supplied by the
/// command-line layer outside the core: both directories must exist and be
/// directories, validated once before any file is touched.
pub struct Configuration {
    pub source_dir: Vec<u8>,
    pub staging_dir: Vec<u8>,
    pub reverse_order: bool,
}

/// What the driver reports to the batch machine.
pub enum BatchEvent {
    /// The capability gate ran; what it captured.
    CapabilityChecked { result: ProcessResult },
    /// Whether the source and the staging paths are directories.
    DirectoriesChecked { source_is_dir: bool, staging_is_dir: bool },
    /// The scan ended; `ok` is false on a traversal error, else `count`
    /// candidates were discovered.
    ScanFinished { ok: bool, count: u64 },
    /// The current candidate reached a terminal job outcome.
    CandidateHandled,
}

/// What the driver must do next. `Stop` touches nothing further.
#[derive(Clone, Copy, PartialEq, Eq, Structural, Debug)]
pub enum BatchAction {
    RunCapabilityProbe,
    CheckDirectories,
    ScanTree,
    /// Run candidate `index` through the job machine, after reporting
    /// `percent` of progress.
    HandleCandidate { index: u64, percent: u64 },
    Stop,
}

impl BatchPhase {
    /// A running phase always sits strictly inside the candidate sequence.
    pub open spec fn wf(self) -> bool {
        match self {
            BatchPhase::Running { index, total } => index < total,
            _ => true,
        }
    }
}

/// Where every run begins: at the capability gate, before any file is
/// touched.
pub open spec fn spec_batch_start() -> (BatchPhase, BatchAction) {
    (BatchPhase::AwaitCapability, BatchAction::RunCapabilityProbe)
}

/// Starts a run.
pub fn batch_start() -> (r: (BatchPhase, BatchAction))
    ensures
        r == spec_batch_start(),
        r.0.wf(),
{
    (BatchPhase::AwaitCapability, BatchAction::RunCapabilityProbe)
}

/// The whole transition table of the batch machine.
pub open spec fn spec_batch_step(phase: BatchPhase, event: BatchEvent) -> (BatchPhase, BatchAction) {
    match (phase, event) {
        (BatchPhase::AwaitCapability, BatchEvent::CapabilityChecked { result }) => {
            if is_substring(result.stderr_text@, nvenc_marker()) {
                (BatchPhase::AwaitDirectories, BatchAction::CheckDirectories)
            } else {
                (
                    BatchPhase::Aborted { error: FatalError::CapabilityUnsupported },
                    BatchAction::Stop,
                )
            }
        },
        (
            BatchPhase::AwaitDirectories,
            BatchEvent::DirectoriesChecked { source_is_dir, staging_is_dir },
        ) => {
            if !source_is_dir {
                (BatchPhase::Aborted { error: FatalError::InvalidSourceDirectory }, BatchAction::Stop)
            } else if !staging_is_dir {
                (
                    BatchPhase::Aborted { error: FatalError::InvalidStagingDirectory },
                    BatchAction::Stop,
                )
            } else {
                (BatchPhase::AwaitScan, BatchAction::ScanTree)
            }
        },
        (BatchPhase::AwaitScan, BatchEvent::ScanFinished { ok, count }) => {
            if !ok {
                (BatchPhase::Aborted { error: FatalError::Traversal }, BatchAction::Stop)
            } else if count == 0 {
                (BatchPhase::Finished, BatchAction::Stop)
            } else {
                (
                    BatchPhase::Running { index: 0, total: count },
                    BatchAction::HandleCandidate { index: 0, percent: 0 },
                )
            }
        },
        (BatchPhase::Running { index, total }, BatchEvent::CandidateHandled) => {
            if index + 1 < total {
                (
                    BatchPhase::Running { index: (index + 1) as u64, total },
                    BatchAction::HandleCandidate {
                        index: (index + 1) as u64,
                        percent: spec_percent(index + 1, total as int) as u64,
                    },
                )
            } else {
                (BatchPhase::Finished, BatchAction::Stop)
            }
        },
        _ => (phase, BatchAction::Stop),
    }
}

/// Advances the batch machine by one event.
pub fn batch_step(phase: BatchPhase, event: BatchEvent) -> (r: (BatchPhase, BatchAction))
    requires
        phase.wf(),
    ensures
        r == spec_batch_step(phase, event),
        r.0.wf(),
{
    match (phase, event) {
        (BatchPhase::AwaitCapability, BatchEvent::CapabilityChecked { result }) => {
            if capability_supported(&result) {
                (BatchPhase::AwaitDirectories, BatchAction::CheckDirectories)
            } else {
                (
                    BatchPhase::Aborted { error: FatalError::CapabilityUnsupported },
                    BatchAction::Stop,
                )
            }
        },
        (
            BatchPhase::AwaitDirectories,
            BatchEvent::DirectoriesChecked { source_is_dir, staging_is_dir },
        ) => {
            if !source_is_dir {
                (BatchPhase::Aborted { error: FatalError::InvalidSourceDirectory }, BatchAction::Stop)
            } else if !staging_is_dir {
                (
                    BatchPhase::Aborted { error: FatalError::InvalidStagingDirectory },
                    BatchAction::Stop,
                )
            } else {
                (BatchPhase::AwaitScan, BatchAction::ScanTree)
            }
        },
        (BatchPhase::AwaitScan, BatchEvent::ScanFinished { ok, count }) => {
            if !ok {
                (BatchPhase::Aborted { error: FatalError::Traversal }, BatchAction::Stop)
            } else if count == 0 {
                (BatchPhase::Finished, BatchAction::Stop)
            } else {
                (
                    BatchPhase::Running { index: 0, total: count },
                    BatchAction::HandleCandidate { index: 0, percent: 0 },
                )
            }
        },
        (BatchPhase::Running { index, total }, BatchEvent::CandidateHandled) => {
            if index + 1 < total {
                let next = index + 1;
                let percent = progress_percent(next, total);
                (
                    BatchPhase::Running { index: next, total },
                    BatchAction::HandleCandidate { index: next, percent },
                )
            } else {
                (BatchPhase::Finished, BatchAction::Stop)
            }
        },
        (p, _) => (p, BatchAction::Stop),
    }
}

/// Progress never falls: whenever the machine hands out the next
/// candidate, the percentage it reports is at least the one it reported
/// for the candidate before, whatever that candidate's outcome was.
pub proof fn lemma_batch_progress_monotone(index: u64, total: u64, event: BatchEvent)
    requires
        index < total,
    ensures
        spec_batch_step(BatchPhase::Running { index, total }, event).1 matches
            BatchAction::HandleCandidate { index: next, percent } ==> next == index + 1 && percent
            == spec_percent(index + 1, total as int) && spec_percent(index as int, total as int)
            <= percent,
{
    crate::progress::lemma_progress_monotone(index as int, index as int + 1, total as int);
    crate::progress::lemma_percent_bounded(index as int + 1, total as int);
}

/// The phase the batch machine is in after a whole run of events.
pub open spec fn batch_run_phase(phase: BatchPhase, events: Seq<BatchEvent>) -> BatchPhase
    decreases events.len(),
{
    if events.len() == 0 {
        phase
    } else {
        batch_run_phase(spec_batch_step(phase, events[0]).0, events.drop_first())
    }
}

/// Whether any step of a run asks for the action `a`.
pub open spec fn batch_run_asks(phase: BatchPhase, events: Seq<BatchEvent>, a: BatchAction) -> bool
    decreases events.len(),
{
    if events.len() == 0 {
        false
    } else {
        ||| spec_batch_step(phase, events[0]).1 == a
        ||| batch_run_asks(spec_batch_step(phase, events[0]).0, events.drop_first(), a)
    }
}

/// An aborted run stays aborted and never asks for anything again.
pub proof fn lemma_aborted_is_final(error: FatalError, events: Seq<BatchEvent>, a: BatchAction)
    requires
        a != BatchAction::Stop,
    ensures
        batch_run_phase(BatchPhase::Aborted { error }, events) == (BatchPhase::Aborted { error }),
        !batch_run_asks(BatchPhase::Aborted { error }, events, a),
    decreases events.len(),
{
    if events.len() > 0 {
        lemma_aborted_is_final(error, events.drop_first(), a);
    }
}

/// The capability gate gates everything: when the capability output lacks
/// the marker, the run aborts at once and asks for nothing further — no
/// scan ever occurs, no candidate is ever handled, no file is touched.
pub proof fn lemma_capability_gates_run(result: ProcessResult, rest: Seq<BatchEvent>)
    requires
        !is_substring(result.stderr_text@, nvenc_marker()),
    ensures
        batch_run_phase(
            BatchPhase::AwaitCapability,
            seq![BatchEvent::CapabilityChecked { result }] + rest,
        ) == (BatchPhase::Aborted { error: FatalError::CapabilityUnsupported }),
        forall|a: BatchAction|
            a != BatchAction::Stop ==> !#[trigger] batch_run_asks(
                BatchPhase::AwaitCapability,
                seq![BatchEvent::CapabilityChecked { result }] + rest,
                a,
            ),
{
    let events = seq![BatchEvent::CapabilityChecked { result }] + rest;
    assert(events[0] == (BatchEvent::CapabilityChecked { result }));
    assert(events.drop_first() =~= rest);
    let aborted = BatchPhase::Aborted { error: FatalError::CapabilityUnsupported };
    assert(spec_batch_step(BatchPhase::AwaitCapability, events[0]).0 == aborted);
    lemma_aborted_is_final(FatalError::CapabilityUnsupported, rest, BatchAction::ScanTree);
    assert forall|a: BatchAction|
        a != BatchAction::Stop implies !#[trigger] batch_run_asks(
        BatchPhase::AwaitCapability,
        events,
        a,
    ) by {
        lemma_aborted_is_final(FatalError::CapabilityUnsupported, rest, a);
    }
}

} // verus!
