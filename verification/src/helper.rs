//! Page arithmetic: the system page size, byte-to-page conversions and
//! alignment checks, with the exact ceiling-division laws they obey.

use vstd::prelude::*;
use vstd::arithmetic::div_mod::lemma_div_multiples_vanish_fancy;
use vstd::arithmetic::div_mod::lemma_div_nonincreasing;
use vstd::arithmetic::div_mod::lemma_div_plus_one;
use vstd::arithmetic::div_mod::lemma_div_pos_is_pos;
use vstd::arithmetic::mul::lemma_mul_is_distributive_add;

verus! {

/// Number of whole pages needed to hold `bytes` bytes: `ceil(bytes / page_size)`.
pub open spec fn pages_of(bytes: int, page_size: int) -> int {
    (bytes + page_size - 1) / page_size
}

/// A region that is an exact multiple of the page size occupies exactly that
/// many pages: no off-by-one from the ceiling rounding.
pub proof fn lemma_pages_of_exact(k: int, page_size: int)
    requires
        1 <= page_size,
        0 <= k,
    ensures
        pages_of(k * page_size, page_size) == k,
{
    assert(k * page_size + page_size - 1 == page_size * k + (page_size - 1)) by {
        lemma_mul_is_distributive_add(page_size, k, 1);
    }
    lemma_div_multiples_vanish_fancy(k, page_size - 1, page_size);
}

/// A region that spills `r` bytes into one more page (`0 < r < page_size`)
/// occupies one page beyond the exact multiple.
pub proof fn lemma_pages_of_partial(k: int, r: int, page_size: int)
    requires
        1 <= page_size,
        0 <= k,
        0 < r < page_size,
    ensures
        pages_of(k * page_size + r, page_size) == k + 1,
{
    assert(k * page_size + r + page_size - 1 == page_size * (k + 1) + (r - 1)) by {
        lemma_mul_is_distributive_add(page_size, k, 1);
    }
    lemma_div_multiples_vanish_fancy(k + 1, r - 1, page_size);
}

/// An empty region occupies no pages.
pub proof fn lemma_pages_of_zero(page_size: int)
    requires
        1 <= page_size,
    ensures
        pages_of(0, page_size) == 0,
{
    lemma_pages_of_exact(0, page_size);
}

/// Bytes-to-pages conversion, rounding up to whole pages; `0` bytes give `0`
/// pages.
pub fn bytes2pages(bytes: usize, page_size: usize) -> (r: usize)
    requires
        1 <= page_size,
        bytes + page_size - 1 <= usize::MAX,
    ensures
        r == pages_of(bytes as int, page_size as int),
{
    if bytes == 0 {
        proof {
            lemma_pages_of_zero(page_size as int);
        }
        0
    } else {
        proof {
            lemma_div_nonincreasing(bytes - 1, page_size as int);
            lemma_div_pos_is_pos(bytes - 1, page_size as int);
            assert(bytes + page_size as int - 1 == (bytes - 1) + page_size);
            lemma_div_plus_one(bytes as int - 1, page_size as int);
        }
        (bytes - 1) / page_size + 1
    }
}

/// Whether an address (or offset) sits exactly on a page boundary.
pub fn aligned_p(addr: usize, page_size: usize) -> (r: bool)
    requires
        1 <= page_size,
    ensures
        r == (addr as int % page_size as int == 0),
{
    addr % page_size == 0
}

/// Byte offset of the first byte of the page with this index: the explicit
/// page-index to byte-offset correspondence used when touching pages.
pub fn page_offset(page_index: usize, page_size: usize) -> (r: usize)
    requires
        page_index * page_size <= usize::MAX,
    ensures
        r == page_index * page_size,
{
    page_index * page_size
}

/// Relies on nix::unistd::sysconf with SysconfVar::PAGE_SIZE: asks the
/// kernel for the size in bytes of a page; None when the query fails or the
/// option is indeterminate.
#[verifier::external_body]
fn sysconf_page_size() -> (r: Option<i64>) {
    match nix::unistd::sysconf(nix::unistd::SysconfVar::PAGE_SIZE) {
        Ok(Some(v)) => Some(v as i64),
        Ok(None) => None,
        Err(_) => None,
    }
}

/// The system page size, queried once at startup and passed around from
/// there.  `None` when the kernel query fails or reports a value no page
/// size can have; proceeding without a page size is impossible, so callers
/// treat `None` as fatal.
pub fn page_size() -> (r: Option<usize>)
    ensures
        r is Some ==> 1 <= r.unwrap(),
{
    match sysconf_page_size() {
        Some(v) => {
            if 1 <= v && (v as u64) <= (usize::MAX as u64) {
                Some(v as usize)
            } else {
                None
            }
        },
        None => None,
    }
}

} // verus!
