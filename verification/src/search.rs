//! Hard-link deduplication: the set of (device, inode) pairs a traversal
//! has already visited.

use vstd::prelude::*;

verus! {

/// A (device, inode) pair: the identity of a file independent of the paths
/// that link to it.
#[derive(Clone, Copy, Debug, PartialEq, Eq, Structural)]
pub struct DevAndInode {
    pub dev: u64,
    pub ino: u64,
}

/// The set of (device, inode) pairs already visited by a traversal, kept so
/// that hard-linked paths are counted once.  Membership only; it grows
/// monotonically for the run and is passed in explicitly rather than held as
/// ambient global state.
pub struct InodeDeduplicator {
    seen_pairs: Vec<DevAndInode>,
}

impl View for InodeDeduplicator {
    type V = Set<(u64, u64)>;

    /// The mathematical set of pairs recorded so far.
    closed spec fn view(&self) -> Set<(u64, u64)> {
        Set::new(
            |p: (u64, u64)|
                exists|i: int|
                    0 <= i < self.seen_pairs@.len() && (#[trigger] self.seen_pairs@[i]).dev == p.0
                        && self.seen_pairs@[i].ino == p.1,
        )
    }
}

impl InodeDeduplicator {
    /// An empty traversal context: nothing seen yet.
    pub fn new() -> (r: Self)
        ensures
            r@ == Set::<(u64, u64)>::empty(),
    {
        let d = InodeDeduplicator { seen_pairs: Vec::new() };
        proof {
            assert(d@ =~= Set::<(u64, u64)>::empty());
        }
        d
    }

    /// Whether this pair was already recorded.
    pub fn seen(&self, dev: u64, ino: u64) -> (r: bool)
        ensures
            r == self@.contains((dev, ino)),
    {
        let mut i: usize = 0;
        while i < self.seen_pairs.len()
            invariant
                0 <= i <= self.seen_pairs@.len(),
                forall|j: int|
                    0 <= j < i ==> !((#[trigger] self.seen_pairs@[j]).dev == dev
                        && self.seen_pairs@[j].ino == ino),
            decreases self.seen_pairs@.len() - i,
        {
            if self.seen_pairs[i].dev == dev && self.seen_pairs[i].ino == ino {
                return true;
            }
            i = i + 1;
        }
        false
    }

    /// Records the pair.  Returns `true` when the pair is new; a second
    /// record of the same pair returns `false` and leaves the set unchanged,
    /// so no duplicate task is ever built from a hard link.
    pub fn record(&mut self, dev: u64, ino: u64) -> (r: bool)
        ensures
            r == !old(self)@.contains((dev, ino)),
            final(self)@ == old(self)@.insert((dev, ino)),
    {
        if self.seen(dev, ino) {
            proof {
                assert(old(self)@.insert((dev, ino)) =~= old(self)@);
            }
            return false;
        }
        let ghost prev = self.seen_pairs@;
        self.seen_pairs.push(DevAndInode { dev, ino });
        proof {
            assert forall|q: (u64, u64)| #[trigger]
                self@.contains(q) implies old(self)@.insert((dev, ino)).contains(q) by {
                let i = choose|i: int|
                    0 <= i < self.seen_pairs@.len() && (#[trigger] self.seen_pairs@[i]).dev == q.0
                        && self.seen_pairs@[i].ino == q.1;
                if i < prev.len() {
                    assert(prev[i] == self.seen_pairs@[i]);
                } else {
                    assert(q == (dev, ino));
                }
            }
            assert forall|q: (u64, u64)| #[trigger]
                old(self)@.insert((dev, ino)).contains(q) implies self@.contains(q) by {
                if q == (dev, ino) {
                    assert(self.seen_pairs@[prev.len() as int].dev == q.0);
                    assert(self.seen_pairs@[prev.len() as int].ino == q.1);
                } else {
                    let i = choose|i: int|
                        0 <= i < prev.len() && (#[trigger] prev[i]).dev == q.0 && prev[i].ino
                            == q.1;
                    assert(self.seen_pairs@[i] == prev[i]);
                }
            }
            assert(self@ =~= old(self)@.insert((dev, ino)));
        }
        true
    }
}

/// Recording a pair a second time is always refused: after any record of a
/// pair the set contains it — so the next record of it answers `false` — and
/// recording it again adds nothing.
pub proof fn lemma_second_record_refused(s: Set<(u64, u64)>, p: (u64, u64))
    ensures
        s.insert(p).contains(p),
        s.insert(p).insert(p) == s.insert(p),
{
    assert(s.insert(p).insert(p) =~= s.insert(p));
}

} // verus!
