//! Run-wide aggregation: the reported sequence of per-file records, in
//! submission order, and the totals summed over every successful task.

use vstd::prelude::*;
use crate::error::VmError;
use crate::fincore::cached_percent;
use crate::fincore::percent_of;
use crate::fincore::FincoreResult;

verus! {

/// Accumulated run-wide numbers over all successfully probed tasks, with
/// the derived whole-percent share in core.
#[derive(Debug)]
pub struct RunTotals {
    pub total_pages: i64,
    pub pages_in_core: i64,
    pub total_size: i64,
    pub size_in_core: i64,
    pub percent_in_core: i64,
}

/// The outcome of one task: its residency record, or the error that made
/// the task be skipped.  Failures stay attached to their task's slot; they
/// never abort the rest of the run.
#[derive(Debug)]
pub enum TaskOutcome {
    Done(FincoreResult),
    Failed(VmError),
}

/// Every successful record in a sequence of outcomes is internally
/// consistent.
pub open spec fn outcomes_wf(s: Seq<TaskOutcome>) -> bool {
    forall|j: int|
        0 <= j < s.len() ==> (#[trigger] s[j] matches TaskOutcome::Done(fr) ==> fr.wf())
}

/// The running sums over a sequence of outcomes: failed tasks contribute
/// nothing to any of the four.
pub struct TotalsModel {
    pub total_pages: int,
    pub pages_in_core: int,
    pub total_size: int,
    pub size_in_core: int,
}

pub open spec fn totals_of(s: Seq<TaskOutcome>) -> TotalsModel
    decreases s.len(),
{
    if s.len() == 0 {
        TotalsModel { total_pages: 0, pages_in_core: 0, total_size: 0, size_in_core: 0 }
    } else {
        let t = totals_of(s.drop_last());
        match s.last() {
            TaskOutcome::Done(fr) => TotalsModel {
                total_pages: t.total_pages + fr.total_pages,
                pages_in_core: t.pages_in_core + fr.cached,
                total_size: t.total_size + fr.file_size,
                size_in_core: t.size_in_core + fr.cached_size,
            },
            TaskOutcome::Failed(_) => t,
        }
    }
}

/// The records actually reported, in task submission order: only successful
/// records appear, and only those with resident pages when `only_cached` is
/// set.
pub open spec fn reported_of(s: Seq<TaskOutcome>, only_cached: bool) -> Seq<FincoreResult>
    decreases s.len(),
{
    if s.len() == 0 {
        Seq::empty()
    } else {
        reported_of(s.drop_last(), only_cached) + match s.last() {
            TaskOutcome::Done(fr) => if !only_cached || fr.cached > 0 {
                seq![fr]
            } else {
                Seq::empty()
            },
            TaskOutcome::Failed(_) => Seq::empty(),
        }
    }
}

/// Over consistent outcomes every running sum is non-negative and the
/// resident total stays within the page total.
pub proof fn lemma_totals_bounds(s: Seq<TaskOutcome>)
    requires
        outcomes_wf(s),
    ensures
        0 <= totals_of(s).pages_in_core <= totals_of(s).total_pages,
        0 <= totals_of(s).total_size,
        0 <= totals_of(s).size_in_core,
    decreases s.len(),
{
    if s.len() > 0 {
        assert(outcomes_wf(s.drop_last())) by {
            assert(forall|j: int| 0 <= j < s.len() - 1 ==> s.drop_last()[j] == #[trigger] s[j]);
        }
        lemma_totals_bounds(s.drop_last());
        assert(s[s.len() - 1] matches TaskOutcome::Done(fr) ==> fr.wf());
    }
}

/// A prefix of the outcomes never sums past the whole sequence.
pub proof fn lemma_totals_take_le(s: Seq<TaskOutcome>, i: int)
    requires
        outcomes_wf(s),
        0 <= i <= s.len(),
    ensures
        totals_of(s.take(i)).total_pages <= totals_of(s).total_pages,
        totals_of(s.take(i)).pages_in_core <= totals_of(s).pages_in_core,
        totals_of(s.take(i)).total_size <= totals_of(s).total_size,
        totals_of(s.take(i)).size_in_core <= totals_of(s).size_in_core,
    decreases s.len(),
{
    if i == s.len() {
        assert(s.take(i) =~= s);
    } else {
        assert(outcomes_wf(s.drop_last())) by {
            assert(forall|j: int| 0 <= j < s.len() - 1 ==> s.drop_last()[j] == #[trigger] s[j]);
        }
        assert(s.take(i) =~= s.drop_last().take(i));
        lemma_totals_take_le(s.drop_last(), i);
        assert(s[s.len() - 1] matches TaskOutcome::Done(fr) ==> fr.wf());
    }
}

/// Folds per-task outcomes into the pair the run ends with: the reported
/// records — every successful record in submission order, narrowed to those
/// with resident pages when `only_cached` is set — and the run totals,
/// summed over all successful records whether reported or not.  Failed
/// tasks contribute nothing to either.
pub fn aggregate(outcomes: Vec<TaskOutcome>, only_cached: bool) -> (r: (Vec<FincoreResult>, RunTotals))
    requires
        outcomes_wf(outcomes@),
        totals_of(outcomes@).total_pages * 100 <= i64::MAX,
        totals_of(outcomes@).total_size <= i64::MAX,
        totals_of(outcomes@).size_in_core <= i64::MAX,
    ensures
        r.0@ == reported_of(outcomes@, only_cached),
        r.1.total_pages == totals_of(outcomes@).total_pages,
        r.1.pages_in_core == totals_of(outcomes@).pages_in_core,
        r.1.total_size == totals_of(outcomes@).total_size,
        r.1.size_in_core == totals_of(outcomes@).size_in_core,
        r.1.percent_in_core == percent_of(
            totals_of(outcomes@).pages_in_core,
            totals_of(outcomes@).total_pages,
        ),
        0 <= r.1.percent_in_core <= 100,
{
    let ghost orig = outcomes@;
    let mut rest = outcomes;
    let mut reported: Vec<FincoreResult> = Vec::new();
    let mut total_pages: i64 = 0;
    let mut pages_in_core: i64 = 0;
    let mut total_size: i64 = 0;
    let mut size_in_core: i64 = 0;
    proof {
        assert(orig.take(0) =~= Seq::<TaskOutcome>::empty());
        lemma_totals_bounds(orig);
    }
    while rest.len() > 0
        invariant
            outcomes_wf(orig),
            totals_of(orig).total_pages * 100 <= i64::MAX,
            totals_of(orig).total_size <= i64::MAX,
            totals_of(orig).size_in_core <= i64::MAX,
            0 <= totals_of(orig).pages_in_core <= totals_of(orig).total_pages,
            rest@.len() <= orig.len(),
            rest@ == orig.subrange(orig.len() - rest@.len(), orig.len() as int),
            reported@ == reported_of(orig.take(orig.len() - rest@.len()), only_cached),
            total_pages == totals_of(orig.take(orig.len() - rest@.len())).total_pages,
            pages_in_core == totals_of(orig.take(orig.len() - rest@.len())).pages_in_core,
            total_size == totals_of(orig.take(orig.len() - rest@.len())).total_size,
            size_in_core == totals_of(orig.take(orig.len() - rest@.len())).size_in_core,
        decreases rest@.len(),
    {
        let ghost p = orig.len() - rest@.len();
        proof {
            assert(rest@[0] == orig[p]);
            assert(orig.take(p + 1).drop_last() =~= orig.take(p));
            assert(orig.take(p + 1).last() == orig[p]);
            assert(outcomes_wf(orig.take(p + 1))) by {
                assert(forall|j: int|
                    0 <= j < p + 1 ==> orig.take(p + 1)[j] == #[trigger] orig[j]);
            }
            lemma_totals_bounds(orig.take(p + 1));
            lemma_totals_take_le(orig, p + 1);
        }
        let o = rest.remove(0);
        match o {
            TaskOutcome::Done(fr) => {
                total_pages = total_pages + fr.total_pages;
                pages_in_core = pages_in_core + fr.cached;
                total_size = total_size + fr.file_size;
                size_in_core = size_in_core + fr.cached_size;
                if !only_cached || fr.cached > 0 {
                    reported.push(fr);
                    proof {
                        assert(reported@ =~= reported_of(orig.take(p + 1), only_cached));
                    }
                } else {
                    proof {
                        assert(reported@ =~= reported_of(orig.take(p + 1), only_cached));
                    }
                }
            },
            TaskOutcome::Failed(_) => {
                proof {
                    assert(reported@ =~= reported_of(orig.take(p + 1), only_cached));
                }
            },
        }
        proof {
            assert(rest@ =~= orig.subrange(orig.len() - rest@.len(), orig.len() as int));
        }
    }
    proof {
        assert(orig.take(orig.len() as int) =~= orig);
    }
    let percent = cached_percent(pages_in_core, total_pages);
    (
        reported,
        RunTotals { total_pages, pages_in_core, total_size, size_in_core, percent_in_core: percent },
    )
}

} // verus!
