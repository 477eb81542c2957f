//! Scoped entity registry.
//!
//! Live objects are registered together with the state value that was
//! current when they were created. When a state is exited, every object
//! scoped to that value is purged — and purging a top-level value also
//! purges objects scoped to any sub-state nested under it. Objects
//! registered without a scope are persistent and never purged automatically.
//! Purging an already-empty scope is a no-op, never an error.

use vstd::prelude::*;
use crate::state::{parent_of, parent_state, Scope};

verus! {

/// A registered live object: its identifier and its optional scope tag.
#[derive(Debug, PartialEq, Eq, Structural, Clone, Copy)]
pub struct ObjectEntry {
    pub id: u64,
    pub scope: Option<Scope>,
}

/// Whether purging `purged` removes objects tagged `tag`: the same value,
/// or a sub-state nested under a purged top-level value.
pub open spec fn scope_covers(purged: Scope, tag: Scope) -> bool {
    ||| tag == purged
    ||| match (purged, tag) {
        (Scope::Top(p), Scope::Sub(s)) => parent_of(s) == p,
        _ => false,
    }
}

/// Whether purging `purged` removes the object `e`. Untagged objects are
/// never purged.
pub open spec fn entry_purged(purged: Scope, e: ObjectEntry) -> bool {
    match e.scope {
        Some(tag) => scope_covers(purged, tag),
        None => false,
    }
}

/// The predicate satisfied by the objects that survive purging `purged`.
pub open spec fn keep_pred(purged: Scope) -> spec_fn(ObjectEntry) -> bool {
    |e: ObjectEntry| !entry_purged(purged, e)
}

/// The predicate satisfied by the objects removed when purging `purged`.
pub open spec fn hit_pred(purged: Scope) -> spec_fn(ObjectEntry) -> bool {
    |e: ObjectEntry| entry_purged(purged, e)
}

/// The registry contents after purging `purged`.
pub open spec fn purge_result(entries: Seq<ObjectEntry>, purged: Scope) -> Seq<ObjectEntry> {
    entries.filter(keep_pred(purged))
}

/// Executable form of [`scope_covers`].
pub fn scope_covers_exec(purged: Scope, tag: Scope) -> (r: bool)
    ensures
        r == scope_covers(purged, tag),
{
    if tag == purged {
        true
    } else {
        match (purged, tag) {
            (Scope::Top(p), Scope::Sub(s)) => parent_state(s) == p,
            _ => false,
        }
    }
}

/// The scoped entity registry: an append-only identifier source and the set
/// of live objects with their scope tags.
pub struct ScopedRegistry {
    pub next_id: u64,
    pub entries: Vec<ObjectEntry>,
}

impl ScopedRegistry {
    pub fn new() -> (r: ScopedRegistry)
        ensures
            r.next_id == 0,
            r.entries@ == Seq::<ObjectEntry>::empty(),
    {
        ScopedRegistry { next_id: 0, entries: Vec::new() }
    }

    /// Create a live object under the given scope (or none, for a
    /// persistent object) and return its fresh identifier.
    pub fn register(&mut self, scope: Option<Scope>) -> (id: u64)
        requires
            old(self).next_id < u64::MAX,
        ensures
            id == old(self).next_id,
            final(self).next_id == old(self).next_id + 1,
            final(self).entries@ == old(self).entries@.push(ObjectEntry { id, scope }),
    {
        let id = self.next_id;
        self.next_id = self.next_id + 1;
        self.entries.push(ObjectEntry { id, scope });
        id
    }

    /// Destroy every object whose scope equals the purged value or is a
    /// sub-state nested under it. Idempotent: purging an empty scope keeps
    /// the registry unchanged.
    pub fn purge(&mut self, purged: Scope)
        ensures
            final(self).next_id == old(self).next_id,
            final(self).entries@ == purge_result(old(self).entries@, purged),
            forall|i: int|
                0 <= i < final(self).entries@.len() ==> !entry_purged(
                    purged,
                    #[trigger] final(self).entries@[i],
                ),
    {
        let ghost all = self.entries@;
        let ghost pred = keep_pred(purged);
        let mut kept: Vec<ObjectEntry> = Vec::new();
        let mut i: usize = 0;
        proof {
            assert(all.take(0int).filter(pred) =~= Seq::<ObjectEntry>::empty());
        }
        while i < self.entries.len()
            invariant
                0 <= i <= self.entries@.len(),
                self.entries@ == all,
                kept@ == all.take(i as int).filter(keep_pred(purged)),
            decreases self.entries@.len() - i,
        {
            let e = self.entries[i];
            let keep = match e.scope {
                Some(tag) => !scope_covers_exec(purged, tag),
                None => true,
            };
            proof {
                assert(all.take(i + 1int) =~= all.take(i as int).push(e));
                all.take(i as int).lemma_filter_push(e, keep_pred(purged));
                assert(keep_pred(purged)(e) == keep);
            }
            if keep {
                kept.push(e);
            }
            i = i + 1;
        }
        proof {
            assert(all.take(all.len() as int) =~= all);
        }
        self.entries = kept;
        proof {
            assert forall|j: int| 0 <= j < self.entries@.len() implies !entry_purged(
                purged,
                #[trigger] self.entries@[j],
            ) by {
                all.lemma_filter_pred(pred, j);
            }
        }
    }

    /// How many live objects would be removed by purging the given value.
    pub fn count_in_scope(&self, purged: Scope) -> (n: usize)
        ensures
            n == self.entries@.filter(hit_pred(purged)).len(),
    {
        let ghost all = self.entries@;
        let ghost pred = hit_pred(purged);
        let mut n: usize = 0;
        let mut i: usize = 0;
        proof {
            assert(all.take(0int).filter(pred) =~= Seq::<ObjectEntry>::empty());
        }
        while i < self.entries.len()
            invariant
                0 <= i <= self.entries@.len(),
                self.entries@ == all,
                n == all.take(i as int).filter(hit_pred(purged)).len(),
            decreases self.entries@.len() - i,
        {
            let e = self.entries[i];
            let hit = match e.scope {
                Some(tag) => scope_covers_exec(purged, tag),
                None => false,
            };
            proof {
                assert(all.take(i + 1int) =~= all.take(i as int).push(e));
                all.take(i as int).lemma_filter_len_push(hit_pred(purged), e);
                all.take(i as int).lemma_filter_len(hit_pred(purged));
                assert(hit_pred(purged)(e) == hit);
            }
            if hit {
                n = n + 1;
            }
            i = i + 1;
        }
        proof {
            assert(all.take(all.len() as int) =~= all);
        }
        n
    }

    /// Whether an object with the given identifier is still alive.
    pub fn contains(&self, id: u64) -> (r: bool)
        ensures
            r == exists|i: int| 0 <= i < self.entries@.len() && self.entries@[i].id == id,
    {
        let mut i: usize = 0;
        while i < self.entries.len()
            invariant
                0 <= i <= self.entries@.len(),
                forall|j: int| 0 <= j < i ==> self.entries@[j].id != id,
            decreases self.entries@.len() - i,
        {
            if self.entries[i].id == id {
                return true;
            }
            i = i + 1;
        }
        false
    }

    /// The number of live objects.
    pub fn len(&self) -> (n: usize)
        ensures
            n == self.entries@.len(),
    {
        self.entries.len()
    }
}

/// Purging removes every object in the purged scope family: what remains
/// never matches it.
pub proof fn lemma_purge_removes_scope(entries: Seq<ObjectEntry>, purged: Scope)
    ensures
        purge_result(entries, purged).filter(hit_pred(purged)).len() == 0,
{
    let kept = purge_result(entries, purged);
    let hits = kept.filter(hit_pred(purged));
    if hits.len() > 0 {
        kept.lemma_filter_pred(hit_pred(purged), 0);
        assert(entry_purged(purged, hits[0]));
        kept.lemma_filter_contains_rev(hit_pred(purged), hits[0]);
        let j = choose|j: int| 0 <= j < kept.len() && kept[j] == hits[0];
        entries.lemma_filter_pred(keep_pred(purged), j);
        assert(false);
    }
}

/// Purging is idempotent: purging an already-purged (possibly empty) scope
/// changes nothing.
pub proof fn lemma_purge_idempotent(entries: Seq<ObjectEntry>, purged: Scope)
    ensures
        purge_result(purge_result(entries, purged), purged) == purge_result(entries, purged),
    decreases entries.len(),
{
    reveal(Seq::filter);
    let pred = keep_pred(purged);
    if entries.len() == 0 {
        assert(entries.filter(pred) =~= Seq::<ObjectEntry>::empty());
        assert(purge_result(purge_result(entries, purged), purged) =~= purge_result(
            entries,
            purged,
        ));
    } else {
        lemma_purge_idempotent(entries.drop_last(), purged);
        let rest = entries.drop_last().filter(pred);
        if pred(entries.last()) {
            assert(entries.filter(pred) == rest.push(entries.last()));
            assert(rest.push(entries.last()).drop_last() =~= rest);
            assert(rest.push(entries.last()).last() == entries.last());
            assert(entries.filter(pred).filter(pred) =~= rest.filter(pred).push(entries.last()));
        } else {
            assert(entries.filter(pred) == rest);
        }
    }
}

} // verus!
