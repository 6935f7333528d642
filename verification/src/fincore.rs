//! Per-file residency records: page totals, resident counts and sizes, and
//! the whole-percent share in core.

use vstd::prelude::*;
use vstd::arithmetic::div_mod::lemma_div_by_multiple;
use vstd::arithmetic::div_mod::lemma_div_is_ordered;
use vstd::arithmetic::div_mod::lemma_div_of0;
use vstd::arithmetic::div_mod::lemma_div_pos_is_pos;
use vstd::arithmetic::mul::lemma_mul_inequality;
use crate::helper::bytes2pages;
use crate::helper::pages_of;
use crate::residency::count_resident;
use crate::residency::count_resident_pages;
use crate::residency::lemma_count_resident_bounds;
use crate::residency::resident_indices;
use crate::residency::resident_pages;

verus! {

/// The share of `whole` that `part` covers, in whole percent, rounded down;
/// defined as `0` when `whole` is `0`.
pub open spec fn percent_of(part: int, whole: int) -> int {
    if whole == 0 {
        0
    } else {
        part * 100 / whole
    }
}

/// Whole-percent share of pages in core.  The result always lies in
/// `[0, 100]`; it is exactly `0` when nothing is resident (or the region is
/// empty) and exactly `100` when everything is.
pub fn cached_percent(pages_in_core: i64, total_pages: i64) -> (r: i64)
    requires
        0 <= pages_in_core <= total_pages,
        total_pages * 100 <= i64::MAX,
    ensures
        r == percent_of(pages_in_core as int, total_pages as int),
        0 <= r <= 100,
        pages_in_core == 0 ==> r == 0,
        total_pages == 0 ==> r == 0,
        pages_in_core == total_pages && total_pages > 0 ==> r == 100,
{
    if total_pages == 0 {
        0
    } else {
        proof {
            lemma_div_pos_is_pos(pages_in_core * 100, total_pages as int);
            lemma_div_is_ordered(pages_in_core * 100, total_pages * 100, total_pages as int);
            lemma_div_by_multiple(100, total_pages as int);
            if pages_in_core == 0 {
                lemma_div_of0(total_pages as int);
            }
        }
        (pages_in_core * 100) / total_pages
    }
}

/// Per-file residency record: sizes and counts measured over one region,
/// with the resident page indices kept only when they were asked for.
#[derive(Debug)]
pub struct FincoreResult {
    pub path: String,
    pub file_size: i64,
    pub total_pages: i64,
    pub cached: i64,
    pub cached_size: i64,
    pub cached_percent: i64,
    pub cached_pages: Vec<usize>,
}

impl FincoreResult {
    /// Internal consistency of a record: counts are non-negative and the
    /// resident count never exceeds the page count.
    pub open spec fn wf(self) -> bool {
        &&& 0 <= self.file_size
        &&& 0 <= self.cached <= self.total_pages
        &&& 0 <= self.cached_size
    }
}

/// Whether a region needs a mapping at all: a zero-length region is never
/// mapped — there are no pages to probe — rather than attempted and failed.
pub fn should_map(file_size: usize) -> (r: bool)
    ensures
        r == (file_size > 0),
{
    file_size > 0
}

/// Builds the residency record for one file from its measured size, the
/// system page size and the kernel's residency bitmap over its mapping.
/// Page indices are collected, in ascending order, only when `pages` asks
/// for them.
pub fn fincore(path: &str, pages: bool, file_size: usize, page_size: usize, residency: &Vec<u8>) -> (r:
    FincoreResult)
    requires
        1 <= page_size <= i64::MAX,
        file_size <= i64::MAX,
        file_size + page_size - 1 <= usize::MAX,
        residency@.len() == pages_of(file_size as int, page_size as int),
        pages_of(file_size as int, page_size as int) * 100 <= i64::MAX,
        pages_of(file_size as int, page_size as int) * page_size <= i64::MAX,
    ensures
        r.path@ == path@,
        r.file_size == file_size,
        r.total_pages == pages_of(file_size as int, page_size as int),
        r.cached == count_resident(residency@),
        r.cached_size == r.cached * page_size,
        r.cached_percent == percent_of(count_resident(residency@), r.total_pages as int),
        0 <= r.cached_percent <= 100,
        pages ==> r.cached_pages@ == resident_indices(residency@),
        !pages ==> r.cached_pages@.len() == 0,
        r.wf(),
{
    let num_page = bytes2pages(file_size, page_size);
    let cached_count = count_resident_pages(residency);
    proof {
        lemma_count_resident_bounds(residency@);
        lemma_mul_inequality(cached_count as int, num_page as int, page_size as int);
    }
    let cached_pages: Vec<usize> = if pages {
        resident_pages(residency)
    } else {
        Vec::new()
    };
    let total_pages = num_page as i64;
    let cached = cached_count as i64;
    let cached_size = cached * (page_size as i64);
    let percent = cached_percent(cached, total_pages);
    FincoreResult {
        path: String::from_str(path),
        file_size: file_size as i64,
        total_pages,
        cached,
        cached_size,
        cached_percent: percent,
        cached_pages,
    }
}

} // verus!
