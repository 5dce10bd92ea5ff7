use std::collections::HashMap;

use batch_transcode::batch::{
    batch_start, batch_step, BatchAction, BatchEvent, BatchPhase, FatalError,
};
use batch_transcode::candidate::FileCandidate;
use batch_transcode::clock::make_job_now;
use batch_transcode::job::{
    job_step, make_job, start_job, FailReason, JobAction, JobEvent, JobPhase, SkipReason,
    TranscodeJob,
};
use batch_transcode::probe::ProcessResult;

fn b(s: &str) -> Vec<u8> {
    s.as_bytes().to_vec()
}

fn cand(path: &str, stem: &str, ext: &str) -> FileCandidate {
    FileCandidate { path: b(path), stem: b(stem), extension: b(ext) }
}

type FakeFs = HashMap<Vec<u8>, Vec<u8>>;

fn probe_out(stdout: Vec<u8>) -> ProcessResult {
    ProcessResult { success: true, stdout_text: stdout, stderr_text: Vec::new() }
}

fn gate_err(stderr: &str) -> ProcessResult {
    ProcessResult {
        success: true,
        stdout_text: Vec::new(),
        stderr_text: stderr.as_bytes().to_vec(),
    }
}

struct FakeRun {
    codec_out: Vec<u8>,
    stage_in_ok: bool,
    exit_ok: bool,
    out_bytes: Vec<u8>,
    stage_out_ok: bool,
}

fn run_job(fs: &mut FakeFs, job: &TranscodeJob, c: &FileCandidate, fake: &FakeRun) -> JobPhase {
    let (mut phase, mut action) = start_job(c);
    loop {
        let event = match action {
            JobAction::Report => return phase,
            JobAction::ProbeCodec => JobEvent::CodecProbed { result: probe_out(fake.codec_out.clone()) },
            JobAction::StageIn => {
                if fake.stage_in_ok && fs.contains_key(&job.source) {
                    let bytes = fs[&job.source].clone();
                    fs.insert(job.staged_input.clone(), bytes);
                    JobEvent::StageInFinished { ok: true }
                } else {
                    JobEvent::StageInFinished { ok: false }
                }
            }
            JobAction::Transcode => {
                if fake.exit_ok {
                    fs.insert(job.staged_output.clone(), fake.out_bytes.clone());
                    JobEvent::TranscodeFinished { exit_ok: true }
                } else {
                    JobEvent::TranscodeFinished { exit_ok: false }
                }
            }
            JobAction::StageOut => {
                if fake.stage_out_ok && fs.contains_key(&job.staged_output) {
                    let bytes = fs[&job.staged_output].clone();
                    fs.insert(job.source.clone(), bytes);
                    JobEvent::StageOutFinished { ok: true }
                } else {
                    JobEvent::StageOutFinished { ok: false }
                }
            }
            JobAction::RemoveStagedOutput => {
                let existed = fs.remove(&job.staged_output).is_some();
                JobEvent::OutputRemoved { ok: existed }
            }
            JobAction::RemoveStagedInput => {
                let existed = fs.remove(&job.staged_input).is_some();
                JobEvent::InputRemoved { ok: existed }
            }
        };
        let (next_phase, next_action) = job_step(phase, event);
        phase = next_phase;
        action = next_action;
    }
}

fn h264_run() -> FakeRun {
    FakeRun {
        codec_out: b("codec_name=h264\n"),
        stage_in_ok: true,
        exit_ok: true,
        out_bytes: b("HEVC-BYTES"),
        stage_out_ok: true,
    }
}

#[test]
fn make_job_builds_exact_paths() {
    let c = cand("/media/show/a.mkv", "a", "mkv");
    let job = make_job(&c, &b("/stage"), 1514764800);
    assert_eq!(job.source, b("/media/show/a.mkv"));
    assert_eq!(job.staged_input, b("/stage/a.mkv"));
    assert_eq!(job.staged_output, b("/stage/a_1514764800.mkv"));
    assert!(job.check_distinct_paths());
}

#[test]
fn make_job_negative_timestamp_keeps_sign() {
    let c = cand("/m/a.mkv", "a", "mkv");
    let job = make_job(&c, &b("/s"), -5);
    assert_eq!(job.staged_output, b("/s/a_-5.mkv"));
}

#[test]
fn clock_named_output_has_expected_shape() {
    let c = cand("/m/a.mkv", "a", "mkv");
    let job = make_job_now(&c, &b("/stage"));
    assert_eq!(job.source, b("/m/a.mkv"));
    assert_eq!(job.staged_input, b("/stage/a.mkv"));
    assert!(job.staged_output.starts_with(b"/stage/a_"));
    assert!(job.staged_output.ends_with(b".mkv"));
}

#[test]
fn colliding_paths_are_detected() {
    let job = TranscodeJob { source: b("/s/a.mkv"), staged_input: b("/s/a.mkv"), staged_output: b(
        "/s/a_1.mkv",
    ) };
    assert!(!job.check_distinct_paths());
}

#[test]
fn extension_mismatch_skips_before_probe() {
    let c = cand("/m/c.mp4", "c", "mp4");
    let (phase, action) = start_job(&c);
    assert_eq!(phase, JobPhase::Skipped { reason: SkipReason::Extension });
    assert_eq!(action, JobAction::Report);
}

#[test]
fn successful_job_cleans_staging_and_replaces_original() {
    let mut fs: FakeFs = HashMap::new();
    fs.insert(b("/m/a.mkv"), b("H264-BYTES"));
    let c = cand("/m/a.mkv", "a", "mkv");
    let job = make_job(&c, &b("/stage"), 7);
    let phase = run_job(&mut fs, &job, &c, &h264_run());
    assert_eq!(phase, JobPhase::Done);
    assert_eq!(fs[&b("/m/a.mkv")], b("HEVC-BYTES"));
    assert!(!fs.contains_key(&job.staged_input));
    assert!(!fs.contains_key(&job.staged_output));
    assert_eq!(fs.len(), 1);
}

#[test]
fn codec_mismatch_leaves_file_untouched() {
    let mut fs: FakeFs = HashMap::new();
    fs.insert(b("/m/b.mkv"), b("VP9-BYTES"));
    let c = cand("/m/b.mkv", "b", "mkv");
    let job = make_job(&c, &b("/stage"), 7);
    let mut fake = h264_run();
    fake.codec_out = b("codec_name=vp9\n");
    let phase = run_job(&mut fs, &job, &c, &fake);
    assert_eq!(phase, JobPhase::Skipped { reason: SkipReason::Codec });
    assert_eq!(fs[&b("/m/b.mkv")], b("VP9-BYTES"));
    assert!(!fs.contains_key(&job.staged_input));
    assert!(!fs.contains_key(&job.staged_output));
}

#[test]
fn stage_in_failure_stages_no_output() {
    let mut fs: FakeFs = HashMap::new();
    fs.insert(b("/m/a.mkv"), b("H264-BYTES"));
    let c = cand("/m/a.mkv", "a", "mkv");
    let job = make_job(&c, &b("/stage"), 7);
    let mut fake = h264_run();
    fake.stage_in_ok = false;
    let phase = run_job(&mut fs, &job, &c, &fake);
    assert_eq!(phase, JobPhase::Failed { reason: FailReason::StageIn });
    assert!(!fs.contains_key(&job.staged_output));
    assert!(!fs.contains_key(&job.staged_input));
    assert_eq!(fs[&b("/m/a.mkv")], b("H264-BYTES"));
}

#[test]
fn nonzero_exit_preserves_original_and_cleans_up() {
    let mut fs: FakeFs = HashMap::new();
    fs.insert(b("/m/a.mkv"), b("H264-BYTES"));
    let c = cand("/m/a.mkv", "a", "mkv");
    let job = make_job(&c, &b("/stage"), 7);
    let mut fake = h264_run();
    fake.exit_ok = false;
    let phase = run_job(&mut fs, &job, &c, &fake);
    assert_eq!(phase, JobPhase::Failed { reason: FailReason::Transcode });
    assert_eq!(fs[&b("/m/a.mkv")], b("H264-BYTES"));
    assert!(!fs.contains_key(&job.staged_input));
    assert!(!fs.contains_key(&job.staged_output));
}

#[test]
fn stage_out_failure_preserves_original() {
    let mut fs: FakeFs = HashMap::new();
    fs.insert(b("/m/a.mkv"), b("H264-BYTES"));
    let c = cand("/m/a.mkv", "a", "mkv");
    let job = make_job(&c, &b("/stage"), 7);
    let mut fake = h264_run();
    fake.stage_out_ok = false;
    let phase = run_job(&mut fs, &job, &c, &fake);
    assert_eq!(phase, JobPhase::Failed { reason: FailReason::StageOut });
    assert_eq!(fs[&b("/m/a.mkv")], b("H264-BYTES"));
    assert!(!fs.contains_key(&job.staged_input));
    assert!(!fs.contains_key(&job.staged_output));
}

#[test]
fn batch_walks_to_finished_with_monotone_progress() {
    let (phase, action) = batch_start();
    assert_eq!(action, BatchAction::RunCapabilityProbe);
    let (phase, action) = batch_step(phase, BatchEvent::CapabilityChecked { result: gate_err("GPU #0 supports NVENC") });
    assert_eq!(phase, BatchPhase::AwaitDirectories);
    assert_eq!(action, BatchAction::CheckDirectories);
    let (phase, action) = batch_step(phase, BatchEvent::DirectoriesChecked {
        source_is_dir: true,
        staging_is_dir: true,
    });
    assert_eq!(phase, BatchPhase::AwaitScan);
    assert_eq!(action, BatchAction::ScanTree);
    let (phase, action) = batch_step(phase, BatchEvent::ScanFinished { ok: true, count: 3 });
    assert_eq!(phase, BatchPhase::Running { index: 0, total: 3 });
    assert_eq!(action, BatchAction::HandleCandidate { index: 0, percent: 0 });
    let (phase, action) = batch_step(phase, BatchEvent::CandidateHandled);
    assert_eq!(action, BatchAction::HandleCandidate { index: 1, percent: 33 });
    let (phase, action) = batch_step(phase, BatchEvent::CandidateHandled);
    assert_eq!(action, BatchAction::HandleCandidate { index: 2, percent: 66 });
    let (phase, action) = batch_step(phase, BatchEvent::CandidateHandled);
    assert_eq!(phase, BatchPhase::Finished);
    assert_eq!(action, BatchAction::Stop);
}

#[test]
fn missing_capability_aborts_before_any_scan() {
    let (phase, _) = batch_start();
    let (phase, action) = batch_step(phase, BatchEvent::CapabilityChecked { result: gate_err("no such encoder") });
    assert_eq!(phase, BatchPhase::Aborted { error: FatalError::CapabilityUnsupported });
    assert_eq!(action, BatchAction::Stop);
    // whatever is reported afterwards, the machine stays aborted and asks
    // for nothing: no scan, no candidate, no file is touched
    let (phase, action) = batch_step(phase, BatchEvent::ScanFinished { ok: true, count: 9 });
    assert_eq!(phase, BatchPhase::Aborted { error: FatalError::CapabilityUnsupported });
    assert_eq!(action, BatchAction::Stop);
    let (phase, action) = batch_step(phase, BatchEvent::CandidateHandled);
    assert_eq!(phase, BatchPhase::Aborted { error: FatalError::CapabilityUnsupported });
    assert_eq!(action, BatchAction::Stop);
}

#[test]
fn invalid_directories_abort() {
    let (phase, _) = batch_start();
    let (phase, _) = batch_step(phase, BatchEvent::CapabilityChecked { result: gate_err("supports NVENC") });
    let (bad_src, action) = batch_step(phase, BatchEvent::DirectoriesChecked {
        source_is_dir: false,
        staging_is_dir: true,
    });
    assert_eq!(bad_src, BatchPhase::Aborted { error: FatalError::InvalidSourceDirectory });
    assert_eq!(action, BatchAction::Stop);
    let (bad_stage, action) = batch_step(phase, BatchEvent::DirectoriesChecked {
        source_is_dir: true,
        staging_is_dir: false,
    });
    assert_eq!(bad_stage, BatchPhase::Aborted { error: FatalError::InvalidStagingDirectory });
    assert_eq!(action, BatchAction::Stop);
}

#[test]
fn traversal_error_aborts_and_empty_scan_finishes() {
    let (phase, _) = batch_start();
    let (phase, _) = batch_step(phase, BatchEvent::CapabilityChecked { result: gate_err("supports NVENC") });
    let (phase, _) = batch_step(phase, BatchEvent::DirectoriesChecked {
        source_is_dir: true,
        staging_is_dir: true,
    });
    let (failed, action) = batch_step(phase, BatchEvent::ScanFinished { ok: false, count: 0 });
    assert_eq!(failed, BatchPhase::Aborted { error: FatalError::Traversal });
    assert_eq!(action, BatchAction::Stop);
    let (empty, action) = batch_step(phase, BatchEvent::ScanFinished { ok: true, count: 0 });
    assert_eq!(empty, BatchPhase::Finished);
    assert_eq!(action, BatchAction::Stop);
}

#[test]
fn end_to_end_three_candidates() {
    // a.mkv is h264, b.mkv is not, c.mp4 has the wrong container: only
    // a.mkv is transcoded, nothing is left in the staging directory.
    let mut fs: FakeFs = HashMap::new();
    fs.insert(b("/m/a.mkv"), b("A-H264"));
    fs.insert(b("/m/b.mkv"), b("B-VP9"));
    fs.insert(b("/m/c.mp4"), b("C-H264"));
    let candidates =
        vec![cand("/m/a.mkv", "a", "mkv"), cand("/m/b.mkv", "b", "mkv"), cand("/m/c.mp4", "c", "mp4")];
    let fakes = vec![
        h264_run(),
        FakeRun {
            codec_out: b("codec_name=vp9\n"),
            stage_in_ok: true,
            exit_ok: true,
            out_bytes: b("B-HEVC"),
            stage_out_ok: true,
        },
        h264_run(),
    ];

    let (mut phase, mut action) = batch_start();
    let mut outcomes: Vec<JobPhase> = Vec::new();
    loop {
        let event = match action {
            BatchAction::Stop => break,
            BatchAction::RunCapabilityProbe => BatchEvent::CapabilityChecked {
                result: gate_err("GPU #0 supports NVENC"),
            },
            BatchAction::CheckDirectories => BatchEvent::DirectoriesChecked {
                source_is_dir: true,
                staging_is_dir: true,
            },
            BatchAction::ScanTree => BatchEvent::ScanFinished {
                ok: true,
                count: candidates.len() as u64,
            },
            BatchAction::HandleCandidate { index, percent: _ } => {
                let i = index as usize;
                let job = make_job(&candidates[i], &b("/stage"), 7 + index as i64);
                outcomes.push(run_job(&mut fs, &job, &candidates[i], &fakes[i]));
                BatchEvent::CandidateHandled
            }
        };
        let (next_phase, next_action) = batch_step(phase, event);
        phase = next_phase;
        action = next_action;
    }
    assert_eq!(phase, BatchPhase::Finished);
    assert_eq!(outcomes, vec![
        JobPhase::Done,
        JobPhase::Skipped { reason: SkipReason::Codec },
        JobPhase::Skipped { reason: SkipReason::Extension },
    ]);
    assert_eq!(fs.len(), 3);
    assert_eq!(fs[&b("/m/a.mkv")], b("HEVC-BYTES"));
    assert_eq!(fs[&b("/m/b.mkv")], b("B-VP9"));
    assert_eq!(fs[&b("/m/c.mp4")], b("C-H264"));
}

#[test]
fn failing_file_does_not_stop_the_batch() {
    // the first file's transcode exits with status 1; it is left unmodified
    // and the second candidate is still processed
    let mut fs: FakeFs = HashMap::new();
    fs.insert(b("/m/a.mkv"), b("A-H264"));
    fs.insert(b("/m/b.mkv"), b("B-H264"));
    let candidates = vec![cand("/m/a.mkv", "a", "mkv"), cand("/m/b.mkv", "b", "mkv")];
    let mut failing = h264_run();
    failing.exit_ok = false;
    let fakes = vec![failing, h264_run()];

    let (mut phase, mut action) = batch_start();
    let mut outcomes: Vec<JobPhase> = Vec::new();
    loop {
        let event = match action {
            BatchAction::Stop => break,
            BatchAction::RunCapabilityProbe => BatchEvent::CapabilityChecked {
                result: gate_err("supports NVENC"),
            },
            BatchAction::CheckDirectories => BatchEvent::DirectoriesChecked {
                source_is_dir: true,
                staging_is_dir: true,
            },
            BatchAction::ScanTree => BatchEvent::ScanFinished { ok: true, count: 2 },
            BatchAction::HandleCandidate { index, percent: _ } => {
                let i = index as usize;
                let job = make_job(&candidates[i], &b("/stage"), 7);
                outcomes.push(run_job(&mut fs, &job, &candidates[i], &fakes[i]));
                BatchEvent::CandidateHandled
            }
        };
        let (next_phase, next_action) = batch_step(phase, event);
        phase = next_phase;
        action = next_action;
    }
    assert_eq!(phase, BatchPhase::Finished);
    assert_eq!(outcomes, vec![JobPhase::Failed { reason: FailReason::Transcode }, JobPhase::Done]);
    assert_eq!(fs[&b("/m/a.mkv")], b("A-H264"));
    assert_eq!(fs[&b("/m/b.mkv")], b("HEVC-BYTES"));
    assert!(!fs.contains_key(&b("/stage/a.mkv")));
    assert!(!fs.contains_key(&b("/stage/b.mkv")));
}
