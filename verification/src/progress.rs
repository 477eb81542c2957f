//! Loading progress tracker.
//!
//! Each to-be-loaded item is tracked before its load is issued and later
//! marked ready or failed. A failed item still counts as resolved for gating
//! (nothing blocks forever on one failed load) but is excluded from the
//! completion fraction's numerator. That every tracked item has resolved
//! is delivered through a one-shot latch, so the transition it
//! triggers is requested exactly once no matter how often it is polled.

use vstd::prelude::*;
use crate::rational::{rat_le, rat_one, rat_zero, Q, Rat};

verus! {

/// Ternary status of one tracked load item.
#[derive(Debug, PartialEq, Eq, Structural, Clone, Copy)]
pub enum LoadStatus {
    Pending,
    Ready,
    Failed,
}

/// One tracked load item.
#[derive(Debug, PartialEq, Eq, Structural, Clone, Copy)]
pub struct TrackedItem {
    pub id: u64,
    pub status: LoadStatus,
}

/// How many items of `s` have status `st`.
pub open spec fn count_status(s: Seq<TrackedItem>, st: LoadStatus) -> int
    decreases s.len(),
{
    if s.len() == 0 {
        0
    } else {
        count_status(s.drop_last(), st) + if s.last().status == st {
            1int
        } else {
            0int
        }
    }
}

/// Whether an item with this identity is tracked.
pub open spec fn spec_tracked(s: Seq<TrackedItem>, id: u64) -> bool {
    exists|i: int| 0 <= i < s.len() && s[i].id == id
}

/// Whether an item with this identity is tracked and still pending.
pub open spec fn spec_pending(s: Seq<TrackedItem>, id: u64) -> bool {
    exists|i: int| 0 <= i < s.len() && s[i].id == id && s[i].status == LoadStatus::Pending
}

proof fn lemma_count_push(s: Seq<TrackedItem>, it: TrackedItem, st: LoadStatus)
    ensures
        count_status(s.push(it), st) == count_status(s, st) + if it.status == st {
            1int
        } else {
            0int
        },
{
    assert(s.push(it).drop_last() =~= s);
    assert(s.push(it).last() == it);
}

proof fn lemma_count_update(s: Seq<TrackedItem>, i: int, it: TrackedItem, st: LoadStatus)
    requires
        0 <= i < s.len(),
    ensures
        count_status(s.update(i, it), st) == count_status(s, st) + (if it.status == st {
            1int
        } else {
            0int
        }) - (if s[i].status == st {
            1int
        } else {
            0int
        }),
    decreases s.len(),
{
    let su = s.update(i, it);
    if i == s.len() - 1 {
        assert(su.drop_last() =~= s.drop_last());
        assert(su.last() == it);
    } else {
        assert(su.drop_last() =~= s.drop_last().update(i, it));
        assert(su.last() == s.last());
        lemma_count_update(s.drop_last(), i, it, st);
    }
}

proof fn lemma_count_at_least_one(s: Seq<TrackedItem>, i: int, st: LoadStatus)
    requires
        0 <= i < s.len(),
        s[i].status == st,
    ensures
        count_status(s, st) >= 1,
    decreases s.len(),
{
    if i == s.len() - 1 {
        lemma_count_nonneg(s.drop_last(), st);
    } else {
        lemma_count_at_least_one(s.drop_last(), i, st);
    }
}

proof fn lemma_count_nonneg(s: Seq<TrackedItem>, st: LoadStatus)
    ensures
        count_status(s, st) >= 0,
    decreases s.len(),
{
    if s.len() > 0 {
        lemma_count_nonneg(s.drop_last(), st);
    }
}

/// The progress tracker: the tracked items, their status counts, and the
/// one-shot completion latch.
pub struct ProgressTracker {
    pub items: Vec<TrackedItem>,
    pub pending: u32,
    pub ready: u32,
    pub failed: u32,
    pub gate_fired: bool,
}

/// The completion fraction of a tracker: ready count over total count, and
/// one for an empty tracker (nothing outstanding).
pub open spec fn spec_fraction(t: ProgressTracker) -> Rat {
    if t.items@.len() == 0 {
        rat_one()
    } else {
        Rat { n: t.ready as int, d: t.items@.len() as int }
    }
}

/// Whether polling would fire now: every tracked item resolved and the
/// latch not yet consumed.
pub open spec fn gate_fires(t: ProgressTracker) -> bool {
    t.pending == 0 && !t.gate_fired
}

impl ProgressTracker {
    /// Counts match the items, identities are unique, and the total fits
    /// the counters.
    pub open spec fn wf(&self) -> bool {
        &&& self.pending == count_status(self.items@, LoadStatus::Pending)
        &&& self.ready == count_status(self.items@, LoadStatus::Ready)
        &&& self.failed == count_status(self.items@, LoadStatus::Failed)
        &&& self.pending + self.ready + self.failed == self.items@.len()
        &&& self.items@.len() <= u32::MAX
        &&& forall|i: int, j: int|
            0 <= i < j < self.items@.len() ==> (#[trigger] self.items@[i]).id != (
            #[trigger] self.items@[j]).id
    }

    pub fn new() -> (r: ProgressTracker)
        ensures
            r.wf(),
            r.items@ == Seq::<TrackedItem>::empty(),
            r.pending == 0,
            r.ready == 0,
            r.failed == 0,
            !r.gate_fired,
    {
        ProgressTracker { items: Vec::new(), pending: 0, ready: 0, failed: 0, gate_fired: false }
    }

    /// The index of the tracked item with this identity, if any.
    fn find(&self, id: u64) -> (r: Option<usize>)
        ensures
            match r {
                Some(i) => i < self.items@.len() && self.items@[i as int].id == id,
                None => !spec_tracked(self.items@, id),
            },
    {
        let mut i: usize = 0;
        while i < self.items.len()
            invariant
                0 <= i <= self.items@.len(),
                forall|j: int| 0 <= j < i ==> self.items@[j].id != id,
            decreases self.items@.len() - i,
        {
            if self.items[i].id == id {
                return Some(i);
            }
            i = i + 1;
        }
        None
    }

    /// Begin tracking an item, before its load is issued. Returns whether
    /// the identity was new; an already-tracked identity is left unchanged.
    pub fn track(&mut self, id: u64) -> (fresh: bool)
        requires
            old(self).wf(),
            old(self).items@.len() < u32::MAX,
        ensures
            final(self).wf(),
            fresh == !spec_tracked(old(self).items@, id),
            fresh ==> {
                &&& final(self).items@ == old(self).items@.push(
                    TrackedItem { id, status: LoadStatus::Pending },
                )
                &&& final(self).pending == old(self).pending + 1
                &&& final(self).ready == old(self).ready
                &&& final(self).failed == old(self).failed
            },
            !fresh ==> *final(self) == *old(self),
            final(self).gate_fired == old(self).gate_fired,
    {
        match self.find(id) {
            Some(_) => false,
            None => {
                let it = TrackedItem { id, status: LoadStatus::Pending };
                proof {
                    lemma_count_push(self.items@, it, LoadStatus::Pending);
                    lemma_count_push(self.items@, it, LoadStatus::Ready);
                    lemma_count_push(self.items@, it, LoadStatus::Failed);
                }
                self.items.push(it);
                self.pending = self.pending + 1;
                true
            },
        }
    }

    /// Record a resolved load. The item's status moves from pending to
    /// `status`; an unknown or already-resolved identity changes nothing.
    /// For a fixed tracked set the completion fraction never decreases.
    fn resolve(&mut self, id: u64, status: LoadStatus) -> (hit: bool)
        requires
            old(self).wf(),
            status != LoadStatus::Pending,
        ensures
            final(self).wf(),
            hit == spec_pending(old(self).items@, id),
            hit ==> exists|i: int|
                {
                    &&& 0 <= i < old(self).items@.len()
                    &&& old(self).items@[i].id == id
                    &&& old(self).items@[i].status == LoadStatus::Pending
                    &&& final(self).items@ == old(self).items@.update(
                        i,
                        TrackedItem { id, status },
                    )
                },
            hit ==> final(self).pending == old(self).pending - 1,
            hit && status == LoadStatus::Ready ==> final(self).ready == old(self).ready + 1
                && final(self).failed == old(self).failed,
            hit && status == LoadStatus::Failed ==> final(self).failed == old(self).failed + 1
                && final(self).ready == old(self).ready,
            !hit ==> *final(self) == *old(self),
            final(self).gate_fired == old(self).gate_fired,
            final(self).items@.len() == old(self).items@.len(),
            rat_le(spec_fraction(*old(self)), spec_fraction(*final(self))),
    {
        let r = match self.find(id) {
            Some(i) => {
                if self.items[i].status == LoadStatus::Pending {
                    let ghost pre = self.items@;
                    let it = TrackedItem { id, status };
                    proof {
                        lemma_count_at_least_one(pre, i as int, LoadStatus::Pending);
                        lemma_count_update(pre, i as int, it, LoadStatus::Pending);
                        lemma_count_update(pre, i as int, it, LoadStatus::Ready);
                        lemma_count_update(pre, i as int, it, LoadStatus::Failed);
                    }
                    self.items.set(i, it);
                    self.pending = self.pending - 1;
                    if status == LoadStatus::Ready {
                        self.ready = self.ready + 1;
                    } else {
                        self.failed = self.failed + 1;
                    }
                    proof {
                        assert(spec_pending(pre, id));
                        assert(forall|k: int|
                            0 <= k < self.items@.len() ==> (#[trigger] self.items@[k]).id
                                == pre[k].id);
                    }
                    true
                } else {
                    proof {
                        assert forall|k: int|
                            0 <= k < self.items@.len() && self.items@[k].id == id implies
                            self.items@[k].status != LoadStatus::Pending by {
                            if k != i as int {
                                assert(self.items@[k].id != self.items@[i as int].id);
                            }
                        }
                    }
                    false
                }
            },
            None => false,
        };
        proof {
            let t0 = *old(self);
            let t1 = *self;
            if t0.items@.len() == 0 {
                assert(rat_le(spec_fraction(t0), spec_fraction(t1)));
            } else {
                assert(t1.items@.len() == t0.items@.len());
                assert(t0.ready <= t1.ready);
                assert(rat_le(spec_fraction(t0), spec_fraction(t1))) by (nonlinear_arith)
                    requires
                        spec_fraction(t0) == (Rat {
                            n: t0.ready as int,
                            d: t0.items@.len() as int,
                        }),
                        spec_fraction(t1) == (Rat {
                            n: t1.ready as int,
                            d: t1.items@.len() as int,
                        }),
                        t1.items@.len() == t0.items@.len(),
                        t0.items@.len() > 0,
                        t0.ready <= t1.ready,
                ;
            }
        }
        r
    }

    /// Record a successful load.
    pub fn mark_ready(&mut self, id: u64) -> (hit: bool)
        requires
            old(self).wf(),
        ensures
            final(self).wf(),
            hit == spec_pending(old(self).items@, id),
            hit ==> {
                &&& final(self).pending == old(self).pending - 1
                &&& final(self).ready == old(self).ready + 1
                &&& final(self).failed == old(self).failed
            },
            !hit ==> *final(self) == *old(self),
            final(self).gate_fired == old(self).gate_fired,
            final(self).items@.len() == old(self).items@.len(),
            rat_le(spec_fraction(*old(self)), spec_fraction(*final(self))),
    {
        self.resolve(id, LoadStatus::Ready)
    }

    /// Record a failed load: resolved for gating, excluded from the
    /// fraction's numerator.
    pub fn mark_failed(&mut self, id: u64) -> (hit: bool)
        requires
            old(self).wf(),
        ensures
            final(self).wf(),
            hit == spec_pending(old(self).items@, id),
            hit ==> {
                &&& final(self).pending == old(self).pending - 1
                &&& final(self).failed == old(self).failed + 1
                &&& final(self).ready == old(self).ready
            },
            !hit ==> *final(self) == *old(self),
            final(self).gate_fired == old(self).gate_fired,
            final(self).items@.len() == old(self).items@.len(),
            rat_le(spec_fraction(*old(self)), spec_fraction(*final(self))),
    {
        self.resolve(id, LoadStatus::Failed)
    }

    /// The completion fraction, in `[0, 1]`: ready count over total count
    /// (one for an empty tracker). Failed items count in the denominator
    /// only.
    pub fn fraction(&self) -> (r: Q)
        requires
            self.wf(),
        ensures
            r.wf(),
            r@ == spec_fraction(*self),
            rat_le(rat_zero(), r@),
            rat_le(r@, rat_one()),
    {
        let total = self.items.len();
        if total == 0 {
            Q::one()
        } else {
            let r = Q::new(self.ready as i64, total as i64);
            proof {
                assert(self.ready <= self.items@.len());
            }
            r
        }
    }

    /// Whether every tracked item is resolved (ready or failed).
    pub fn is_complete(&self) -> (r: bool)
        ensures
            r == (self.pending == 0),
    {
        self.pending == 0
    }

    /// One-shot gate: returns true exactly once, on the first poll after the
    /// pending count reaches zero. Later polls return false even though
    /// `is_complete` stays true.
    pub fn poll_gate(&mut self) -> (fire: bool)
        ensures
            fire == gate_fires(*old(self)),
            final(self).items@ == old(self).items@,
            final(self).pending == old(self).pending,
            final(self).ready == old(self).ready,
            final(self).failed == old(self).failed,
            final(self).gate_fired == (old(self).gate_fired || old(self).pending == 0),
    {
        let fire = self.pending == 0 && !self.gate_fired;
        if self.pending == 0 {
            self.gate_fired = true;
        }
        fire
    }
}

/// A fire can never repeat: polling consumes the latch, so the completion-triggered transition is requested exactly once.
pub proof fn lemma_gate_fires_at_most_once(t: ProgressTracker)
    ensures
        gate_fires(t) ==> !gate_fires(
            ProgressTracker { gate_fired: t.gate_fired || t.pending == 0, ..t },
        ),
{
}

} // verus!
