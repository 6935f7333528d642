//! The engine's failure taxonomy.

use vstd::prelude::*;

verus! {

/// Engine-level failure taxonomy.  Every failure is local to the task that
/// raised it: callers collect these per task and continue the run.
#[derive(Clone, Copy, Debug, PartialEq, Eq, Structural)]
pub enum VmError {
    /// The underlying size query (file metadata or block-device size) failed.
    SizeQueryFailed,
    /// The object is larger than the configured maximum; the task is skipped.
    ExceedsSizeLimit,
    /// The requested offset lies at or beyond the end of the object.
    OffsetBeyondEnd,
    /// The kernel refused to establish the mapping.
    MapFailed,
    /// The mapping start was not page aligned: a resolver defect, reported
    /// distinctly from ordinary skips.
    AlignmentInvariantViolated,
    /// The kernel residency query failed; residency is unknown, not zero.
    ProbeFailed,
    /// The eviction advisory was issued and refused.
    EvictFailed,
    /// Pinning the pages failed; the mapping is released normally.
    LockFailed,
    /// This platform offers no cache-eviction primitive.
    UnsupportedOnPlatform,
}

impl VmError {
    /// A short human-readable tag for reports.
    pub fn describe(&self) -> (r: &'static str)
        ensures
            r@.len() > 0,
    {
        proof {
            reveal_strlit("size query failed");
            reveal_strlit("file length beyond max file size");
            reveal_strlit("file smaller than offset, skipping");
            reveal_strlit("unable to mmap file");
            reveal_strlit("mmap wasn't page aligned");
            reveal_strlit("residency query failed");
            reveal_strlit("unable to evict file");
            reveal_strlit("unable to lock file");
            reveal_strlit("cache eviction not supported on this platform");
        }
        match self {
            VmError::SizeQueryFailed => "size query failed",
            VmError::ExceedsSizeLimit => "file length beyond max file size",
            VmError::OffsetBeyondEnd => "file smaller than offset, skipping",
            VmError::MapFailed => "unable to mmap file",
            VmError::AlignmentInvariantViolated => "mmap wasn't page aligned",
            VmError::ProbeFailed => "residency query failed",
            VmError::EvictFailed => "unable to evict file",
            VmError::LockFailed => "unable to lock file",
            VmError::UnsupportedOnPlatform => "cache eviction not supported on this platform",
        }
    }
}

} // verus!
