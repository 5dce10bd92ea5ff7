//! Batch video transcoding core: capability gating, candidate filtering,
//! the per-file staged transcode state machine, a model of its effect on
//! the filesystem, and batch progress reporting.
//!
//! All file and process I/O stays outside this crate; the library decides,
//! from plain values handed in (process output text, copy and exit results),
//! what happens next, and proves what each decision preserves.
use vstd::prelude::*;

pub mod batch;
pub mod candidate;
pub mod clock;
pub mod fs_model;
pub mod job;
pub mod probe;
pub mod progress;
pub mod text;

verus! {

} // verus!
