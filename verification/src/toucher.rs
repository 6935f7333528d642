//! The per-task engine: range resolution against the measured object
//! length, accounting of probed regions into the run totals, and the evict
//! request over the file descriptor.

use vstd::prelude::*;
use crate::aggregate::RunTotals;
use crate::error::VmError;
use crate::fincore::cached_percent;
use crate::fincore::percent_of;
use crate::helper::bytes2pages;
use crate::helper::pages_of;
use crate::residency::count_resident;
use crate::residency::count_resident_pages;
use crate::residency::lemma_count_resident_bounds;
use vstd::arithmetic::mul::lemma_mul_inequality;

verus! {

/// Run-wide configuration: which one of touch, evict or lock is requested
/// (touch is the implicit default), the size ceiling beyond which a task is
/// skipped, and the verbosity knobs of the report.
#[derive(Clone, Copy, Debug, Default)]
pub struct Args {
    pub o_evict: bool,
    pub o_verbose: bool,
    pub o_touch: bool,
    pub o_lock: bool,
    pub o_max_file_size: u32,
    pub o_quiet: bool,
}

/// The cache-eviction primitive the running platform offers, selected once
/// at startup by the platform probe of the surrounding binary.
#[derive(Clone, Copy, Debug, PartialEq, Eq, Structural)]
pub enum EvictMechanism {
    /// An advisory "these pages are not needed" on the file descriptor.
    AdvisoryDontNeed,
    /// No eviction primitive exists here; evict requests fail gracefully.
    Unsupported,
}

/// Relies on nix::fcntl::posix_fadvise with POSIX_FADV_DONTNEED: asks the
/// kernel to drop the cached pages of the open file descriptor over
/// `[offset, offset + len)`; `Ok` on success, the raw error number otherwise.
#[verifier::external_body]
fn fadvise_dontneed(fd: i32, offset: i64, len: i64) -> (r: Result<(), i32>) {
    match nix::fcntl::posix_fadvise(
        fd,
        offset,
        len,
        nix::fcntl::PosixFadviseAdvice::POSIX_FADV_DONTNEED,
    ) {
        Ok(()) => Ok(()),
        Err(e) => Err(e as i32),
    }
}

/// How a task resolves against the measured object length: the effective
/// byte length of the range to map, or the reason the task is skipped.
/// A configured window (`max_len > 0`) that ends before the object does caps
/// the range; an offset at or past the end fails; otherwise the range runs
/// from the offset to the end.
pub open spec fn resolve_range_spec(
    offset: int,
    max_len: int,
    max_file_size: int,
    len_of_file: int,
) -> Result<int, VmError> {
    if len_of_file > max_file_size {
        Err(VmError::ExceedsSizeLimit)
    } else if max_len > 0 && offset + max_len < len_of_file {
        Ok(max_len)
    } else if offset >= len_of_file {
        Err(VmError::OffsetBeyondEnd)
    } else {
        Ok(len_of_file - offset)
    }
}

/// The engine state for one run: configuration, the requested window, and
/// the running page totals that the final report prints.
pub struct VmToucher {
    pub args: Args,
    pub junk_counter: usize,
    pub offset: i64,
    pub max_len: i64,
    pub total_pages: i64,
    pub total_pages_in_core: i64,
    pub page_size: usize,
}

impl VmToucher {
    /// Internal consistency: a real page size, a sane window, and counters
    /// that never report more resident pages than pages seen.
    pub open spec fn wf(self) -> bool {
        &&& 1 <= self.page_size <= i64::MAX
        &&& 0 <= self.offset
        &&& 0 <= self.max_len
        &&& self.offset + self.max_len <= i64::MAX
        &&& 0 <= self.total_pages_in_core <= self.total_pages
    }

    /// A fresh engine over the given configuration and the page size the
    /// startup query produced; all counters start at zero.
    pub fn new(args: Args, page_size: usize) -> (r: Self)
        requires
            1 <= page_size <= i64::MAX,
        ensures
            r.args == args,
            r.page_size == page_size,
            r.junk_counter == 0,
            r.offset == 0,
            r.max_len == 0,
            r.total_pages == 0,
            r.total_pages_in_core == 0,
            r.wf(),
    {
        VmToucher {
            args,
            junk_counter: 0,
            offset: 0,
            max_len: 0,
            total_pages: 0,
            total_pages_in_core: 0,
            page_size,
        }
    }

    /// Resolves the effective range of one task against the measured object
    /// length, enforcing the size ceiling and the offset bound.  A resolved
    /// range is never empty and never reaches past the end of the object.
    pub fn resolve_range(&self, len_of_file: i64) -> (r: Result<i64, VmError>)
        requires
            self.wf(),
            0 <= len_of_file,
        ensures
            (r matches Ok(v) ==> resolve_range_spec(
                self.offset as int,
                self.max_len as int,
                self.args.o_max_file_size as int,
                len_of_file as int,
            ) == Ok::<int, VmError>(v as int)),
            (r matches Err(e) ==> resolve_range_spec(
                self.offset as int,
                self.max_len as int,
                self.args.o_max_file_size as int,
                len_of_file as int,
            ) == Err::<int, VmError>(e)),
            r is Ok ==> 0 < r.unwrap() && self.offset + r.unwrap() <= len_of_file,
    {
        if len_of_file > self.args.o_max_file_size as i64 {
            return Err(VmError::ExceedsSizeLimit);
        }
        if self.max_len > 0 && self.offset + self.max_len < len_of_file {
            return Ok(self.max_len);
        }
        if self.offset >= len_of_file {
            return Err(VmError::OffsetBeyondEnd);
        }
        Ok(len_of_file - self.offset)
    }

    /// The defensive alignment check on a freshly established mapping: a
    /// misaligned mapping start indicates a resolver defect and is surfaced
    /// as an internal-error kind, never ignored.
    pub fn check_alignment(&self, addr: usize) -> (r: Result<(), VmError>)
        requires
            self.wf(),
        ensures
            r is Ok <==> addr as int % self.page_size as int == 0,
            r is Err ==> r == Err::<(), VmError>(VmError::AlignmentInvariantViolated),
    {
        if crate::helper::aligned_p(addr, self.page_size) {
            Ok(())
        } else {
            Err(VmError::AlignmentInvariantViolated)
        }
    }

    /// Accounts a resolved region into the run: adds its page count to the
    /// pages seen and returns that count, the number of status bytes the
    /// residency probe must be given.
    pub fn register_region(&mut self, len_of_range: i64) -> (r: usize)
        requires
            old(self).wf(),
            0 < len_of_range,
            len_of_range + old(self).page_size - 1 <= usize::MAX,
            old(self).total_pages + pages_of(len_of_range as int, old(self).page_size as int)
                <= i64::MAX,
        ensures
            r == pages_of(len_of_range as int, old(self).page_size as int),
            final(self).total_pages == old(self).total_pages + r,
            final(self).total_pages_in_core == old(self).total_pages_in_core,
            final(self).args == old(self).args,
            final(self).offset == old(self).offset,
            final(self).max_len == old(self).max_len,
            final(self).page_size == old(self).page_size,
            final(self).junk_counter == old(self).junk_counter,
            final(self).wf(),
    {
        let pages_in_range = bytes2pages(len_of_range as usize, self.page_size);
        self.total_pages = self.total_pages + (pages_in_range as i64);
        pages_in_range
    }

    /// Accounts one probed residency bitmap into the run: adds the number of
    /// resident pages it reports and returns that number.  The bitmap covers
    /// pages that were registered first, so the resident total stays within
    /// the pages seen.
    pub fn record_residency(&mut self, mincore_vec: &Vec<u8>) -> (r: usize)
        requires
            old(self).wf(),
            old(self).total_pages_in_core + mincore_vec@.len() <= old(self).total_pages,
        ensures
            r == count_resident(mincore_vec@),
            final(self).total_pages_in_core == old(self).total_pages_in_core + r,
            final(self).total_pages == old(self).total_pages,
            final(self).args == old(self).args,
            final(self).offset == old(self).offset,
            final(self).max_len == old(self).max_len,
            final(self).page_size == old(self).page_size,
            final(self).junk_counter == old(self).junk_counter,
            final(self).wf(),
    {
        proof {
            lemma_count_resident_bounds(mincore_vec@);
        }
        let c = count_resident_pages(mincore_vec);
        self.total_pages_in_core = self.total_pages_in_core + (c as i64);
        c
    }

    /// Folds in the byte checksum a touch pass accumulated while reading one
    /// byte per page; the value only defeats optimizer elision of those
    /// reads and carries no meaning of its own.
    pub fn absorb_junk(&mut self, junk: usize)
        requires
            old(self).junk_counter + junk <= usize::MAX,
        ensures
            final(self).junk_counter == old(self).junk_counter + junk,
            final(self).total_pages == old(self).total_pages,
            final(self).total_pages_in_core == old(self).total_pages_in_core,
            final(self).args == old(self).args,
            final(self).offset == old(self).offset,
            final(self).max_len == old(self).max_len,
            final(self).page_size == old(self).page_size,
            final(self).wf() == old(self).wf(),
    {
        self.junk_counter = self.junk_counter + junk;
    }

    /// Issues the platform's eviction primitive over the task's effective
    /// range, on the file descriptor — eviction works on the backing object,
    /// independent of any mapping.  On a platform without such a primitive
    /// the request fails with `UnsupportedOnPlatform`, never crashes, and
    /// nothing about the run's measurements changes (the receiver is shared).
    pub fn evict_mem(&self, mech: EvictMechanism, fd: i32, len_of_range: i64) -> (r: Result<
        (),
        VmError,
    >)
        requires
            self.wf(),
        ensures
            mech == EvictMechanism::Unsupported ==> r == Err::<(), VmError>(
                VmError::UnsupportedOnPlatform,
            ),
            mech == EvictMechanism::AdvisoryDontNeed && r is Err ==> r == Err::<(), VmError>(
                VmError::EvictFailed,
            ),
    {
        match mech {
            EvictMechanism::AdvisoryDontNeed => {
                match fadvise_dontneed(fd, self.offset, len_of_range) {
                    Ok(()) => Ok(()),
                    Err(_) => Err(VmError::EvictFailed),
                }
            },
            EvictMechanism::Unsupported => Err(VmError::UnsupportedOnPlatform),
        }
    }

    /// The run-wide summary the final report prints: pages seen, pages in
    /// core, the same two as byte sizes, and the whole-percent share in
    /// core.
    pub fn run_totals(&self) -> (r: RunTotals)
        requires
            self.wf(),
            self.total_pages * self.page_size <= i64::MAX,
            self.total_pages * 100 <= i64::MAX,
        ensures
            r.total_pages == self.total_pages,
            r.pages_in_core == self.total_pages_in_core,
            r.total_size == self.total_pages * self.page_size,
            r.size_in_core == self.total_pages_in_core * self.page_size,
            r.percent_in_core == percent_of(
                self.total_pages_in_core as int,
                self.total_pages as int,
            ),
            0 <= r.percent_in_core <= 100,
    {
        proof {
            lemma_mul_inequality(
                self.total_pages_in_core as int,
                self.total_pages as int,
                self.page_size as int,
            );
            lemma_mul_inequality(self.total_pages_in_core as int, self.total_pages as int, 100);
        }
        let total_size = self.total_pages * (self.page_size as i64);
        let size_in_core = self.total_pages_in_core * (self.page_size as i64);
        let percent = cached_percent(self.total_pages_in_core, self.total_pages);
        RunTotals {
            total_pages: self.total_pages,
            pages_in_core: self.total_pages_in_core,
            total_size,
            size_in_core,
            percent_in_core: percent,
        }
    }
}

} // verus!
