//! Interpretation of the kernel's residency bitmap: which pages count as
//! resident, their indices, and what a touch pass does to the reported state.

use vstd::prelude::*;

verus! {

/// The kernel residency query fills one status byte per page; bit 0 signals
/// residency and every other bit is reserved and ignored.
pub open spec fn page_resident(status: u8) -> bool {
    status & 1 != 0
}

/// How many pages of a residency bitmap are resident.
pub open spec fn count_resident(b: Seq<u8>) -> int
    decreases b.len(),
{
    if b.len() == 0 {
        0
    } else {
        count_resident(b.drop_last()) + if page_resident(b.last()) {
            1int
        } else {
            0int
        }
    }
}

/// The resident count never falls below zero nor above the page count.
pub proof fn lemma_count_resident_bounds(b: Seq<u8>)
    ensures
        0 <= count_resident(b) <= b.len(),
    decreases b.len(),
{
    if b.len() > 0 {
        lemma_count_resident_bounds(b.drop_last());
    }
}

/// The indices of the resident pages, in ascending page order.
pub open spec fn resident_indices(b: Seq<u8>) -> Seq<usize>
    decreases b.len(),
{
    if b.len() == 0 {
        Seq::empty()
    } else {
        resident_indices(b.drop_last()) + if page_resident(b.last()) {
            seq![(b.len() - 1) as usize]
        } else {
            Seq::empty()
        }
    }
}

/// The resident-index sequence lists exactly the resident pages, strictly
/// ascending, and its length is the resident count.
pub proof fn lemma_resident_indices_characterize(b: Seq<u8>)
    requires
        b.len() <= usize::MAX,
    ensures
        resident_indices(b).len() == count_resident(b),
        forall|j: int|
            0 <= j < resident_indices(b).len() ==> #[trigger] resident_indices(b)[j] < b.len()
                && page_resident(b[resident_indices(b)[j] as int]),
        forall|j: int, k: int|
            0 <= j < k < resident_indices(b).len() ==> resident_indices(b)[j]
                < resident_indices(b)[k],
        forall|i: int|
            0 <= i < b.len() && page_resident(b[i]) ==> resident_indices(b).contains(i as usize),
    decreases b.len(),
{
    if b.len() > 0 {
        lemma_resident_indices_characterize(b.drop_last());
        let prev = resident_indices(b.drop_last());
        let cur = resident_indices(b);
        assert(forall|i: int| 0 <= i < b.len() - 1 ==> b.drop_last()[i] == #[trigger] b[i]);
        assert forall|j: int|
            0 <= j < cur.len() implies #[trigger] cur[j] < b.len() && page_resident(
            b[cur[j] as int],
        ) by {
            if j < prev.len() {
                assert(cur[j] == prev[j]);
            } else {
                assert(page_resident(b.last()));
                assert(cur[j] == (b.len() - 1) as usize);
            }
        }
        assert forall|j: int, k: int| 0 <= j < k < cur.len() implies cur[j] < cur[k] by {
            if k < prev.len() {
            } else {
                assert(cur[k] == (b.len() - 1) as usize);
                assert(cur[j] == prev[j]);
                assert(prev[j] < b.len() - 1);
            }
        }
        assert forall|i: int|
            0 <= i < b.len() && page_resident(b[i]) implies cur.contains(i as usize) by {
            if i < b.len() - 1 {
                assert(b.drop_last()[i] == b[i]);
                assert(prev.contains(i as usize));
                let j = choose|j: int| 0 <= j < prev.len() && prev[j] == i as usize;
                assert(cur[j] == i as usize);
            } else {
                assert(page_resident(b.last()));
                assert(cur[cur.len() - 1] == i as usize);
            }
        }
    }
}

/// Counts the resident pages of a residency bitmap.
pub fn count_resident_pages(bitmap: &Vec<u8>) -> (r: usize)
    ensures
        r == count_resident(bitmap@),
{
    let mut count: usize = 0;
    let mut i: usize = 0;
    while i < bitmap.len()
        invariant
            0 <= i <= bitmap@.len(),
            count <= i,
            count == count_resident(bitmap@.take(i as int)),
        decreases bitmap@.len() - i,
    {
        if bitmap[i] & 1 != 0 {
            count = count + 1;
        }
        i = i + 1;
        proof {
            assert(bitmap@.take(i as int).drop_last() =~= bitmap@.take(i as int - 1));
            assert(bitmap@.take(i as int).last() == bitmap@[i as int - 1]);
        }
    }
    proof {
        assert(bitmap@.take(bitmap@.len() as int) =~= bitmap@);
    }
    count
}

/// Collects the indices of the resident pages, in ascending page order.
pub fn resident_pages(bitmap: &Vec<u8>) -> (r: Vec<usize>)
    ensures
        r@ == resident_indices(bitmap@),
{
    let mut out: Vec<usize> = Vec::new();
    let mut i: usize = 0;
    while i < bitmap.len()
        invariant
            0 <= i <= bitmap@.len(),
            out@ == resident_indices(bitmap@.take(i as int)),
        decreases bitmap@.len() - i,
    {
        if bitmap[i] & 1 != 0 {
            out.push(i);
        }
        i = i + 1;
        proof {
            assert(bitmap@.take(i as int).drop_last() =~= bitmap@.take(i as int - 1));
            assert(bitmap@.take(i as int).last() == bitmap@[i as int - 1]);
            if !page_resident(bitmap@[i as int - 1]) {
                assert(out@ =~= resident_indices(bitmap@.take(i as int)));
            } else {
                assert(out@ =~= resident_indices(bitmap@.take(i as int)));
            }
        }
    }
    proof {
        assert(bitmap@.take(bitmap@.len() as int) =~= bitmap@);
    }
    out
}

/// The bitmap state reported for a region after every one of its pages has
/// been touched: each status byte reads fully resident.
pub open spec fn touched(b: Seq<u8>) -> Seq<u8> {
    Seq::new(b.len(), |i: int| 1u8)
}

/// Every page of a bitmap reads resident.
pub open spec fn all_resident(b: Seq<u8>) -> bool {
    forall|i: int| 0 <= i < b.len() ==> page_resident(#[trigger] b[i])
}

/// A fully resident bitmap counts every page.
pub proof fn lemma_count_resident_full(b: Seq<u8>)
    requires
        all_resident(b),
    ensures
        count_resident(b) == b.len(),
    decreases b.len(),
{
    if b.len() > 0 {
        assert(page_resident(b[b.len() - 1]));
        lemma_count_resident_full(b.drop_last());
    }
}

/// Bitmaps whose pages agree on residency report the same count and the
/// same resident indices.
pub proof fn lemma_resident_indices_congruent(a: Seq<u8>, b: Seq<u8>)
    requires
        a.len() == b.len(),
        forall|i: int| 0 <= i < a.len() ==> (page_resident(#[trigger] a[i]) <==> page_resident(b[i])),
    ensures
        resident_indices(a) == resident_indices(b),
        count_resident(a) == count_resident(b),
    decreases a.len(),
{
    if a.len() > 0 {
        assert(forall|i: int|
            0 <= i < a.len() - 1 ==> (page_resident(#[trigger] a.drop_last()[i]) <==> page_resident(
                b.drop_last()[i],
            )));
        lemma_resident_indices_congruent(a.drop_last(), b.drop_last());
        assert(page_resident(a.last()) <==> page_resident(b.last()));
    }
}

/// Touching never lowers residency: the post-touch bitmap reports every page
/// resident, so its count is the page count, never below the pre-touch count.
pub proof fn lemma_touch_monotone(b: Seq<u8>)
    ensures
        count_resident(touched(b)) == b.len(),
        count_resident(b) <= count_resident(touched(b)),
{
    assert(all_resident(touched(b))) by {
        assert(1u8 & 1 != 0) by (bit_vector);
    }
    lemma_count_resident_full(touched(b));
    lemma_count_resident_bounds(b);
}

/// Touching an already fully resident region changes nothing reported: the
/// resident indices and the count stay exactly as probed.
pub proof fn lemma_touch_idempotent(b: Seq<u8>)
    requires
        all_resident(b),
    ensures
        resident_indices(touched(b)) == resident_indices(b),
        count_resident(touched(b)) == count_resident(b),
{
    assert(1u8 & 1 != 0) by (bit_vector);
    lemma_resident_indices_congruent(touched(b), b);
}

/// Marks every page of a bitmap resident: the state reported for the region
/// once a touch pass has faulted each page in.
pub fn mark_all_resident(bitmap: &mut Vec<u8>)
    ensures
        final(bitmap)@ == touched(old(bitmap)@),
{
    let ghost orig = bitmap@;
    let mut i: usize = 0;
    while i < bitmap.len()
        invariant
            0 <= i <= bitmap@.len(),
            bitmap@.len() == orig.len(),
            forall|j: int| 0 <= j < i ==> bitmap@[j] == 1u8,
        decreases bitmap@.len() - i,
    {
        bitmap[i] = 1u8;
        i = i + 1;
    }
    proof {
        assert(bitmap@ =~= touched(orig));
    }
}

} // verus!
