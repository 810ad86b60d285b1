//! The zone registry's structure: every mounted drop zone records itself
//! under its id, in registration order, tagged with the generation of that
//! particular registration.
//!
//! A zone id can be replaced in place (a keyed re-mount, an explicit id
//! change). Asynchronous work (rect measurement, cleanup of an unmounted
//! component) carries the [`ZoneRegistration`] token it started with, so a
//! result for the old registration cannot land in - or delete - its
//! same-id replacement. The host supplies generations from a process-wide
//! counter that never repeats.

use vstd::prelude::*;

use crate::ids::{law_every_auto_id_is_fresh, nth_id};
use crate::keys::{is_key_fn, key_for, key_of};
use crate::types::ZoneId;

verus! {

/// Identifies one particular registration of a [`ZoneId`].
#[derive(Debug, Clone, Copy, PartialEq, Eq, Hash, Structural)]
pub struct ZoneRegistration {
    id: ZoneId,
    generation: u64,
}

impl ZoneRegistration {
    /// The token of registration `generation` of zone `id`.
    pub fn new(id: ZoneId, generation: u64) -> (r: Self)
        ensures
            r.zone() == id,
            r.gen() == generation,
    {
        ZoneRegistration { id, generation }
    }

    /// The registered zone.
    pub closed spec fn zone(self) -> ZoneId {
        self.id
    }

    /// The registration's generation.
    pub closed spec fn gen(self) -> u64 {
        self.generation
    }

    /// The registered zone.
    pub fn id(&self) -> (z: ZoneId)
        ensures
            z == self.zone(),
    {
        self.id
    }

    /// The registration's generation.
    pub fn generation(&self) -> (g: u64)
        ensures
            g == self.gen(),
    {
        self.generation
    }
}

/// Ids occur at most once.
pub open spec fn unique_ids<Z>(s: Seq<(ZoneId, u64, Z)>) -> bool {
    forall|i: int, j: int|
        0 <= i < s.len() && 0 <= j < s.len() && i != j ==> #[trigger] s[i].0 != #[trigger] s[j].0
}

/// Is `id` registered?
pub open spec fn has_zone<Z>(s: Seq<(ZoneId, u64, Z)>, id: ZoneId) -> bool {
    exists|i: int| 0 <= i < s.len() && #[trigger] s[i].0 == id
}

/// Where `id` sits (meaningful when registered).
pub open spec fn slot_of<Z>(s: Seq<(ZoneId, u64, Z)>, id: ZoneId) -> int {
    choose|i: int| 0 <= i < s.len() && #[trigger] s[i].0 == id
}

/// Is this exact registration the live one for its zone?
pub open spec fn is_live<Z>(s: Seq<(ZoneId, u64, Z)>, token: ZoneRegistration) -> bool {
    exists|i: int|
        0 <= i < s.len() && #[trigger] s[i].0 == token.zone() && s[i].1 == token.gen()
}

/// The table after registering `record` under `id` with `generation`: a
/// same-id entry is replaced in its slot, otherwise the entry is appended.
pub open spec fn registered<Z>(s: Seq<(ZoneId, u64, Z)>, id: ZoneId, record: Z, generation: u64) -> Seq<
    (ZoneId, u64, Z),
> {
    if has_zone(s, id) {
        s.update(slot_of(s, id), (id, generation, record))
    } else {
        s.push((id, generation, record))
    }
}

/// The table without zone `id`.
pub open spec fn unregistered<Z>(s: Seq<(ZoneId, u64, Z)>, id: ZoneId) -> Seq<(ZoneId, u64, Z)> {
    if has_zone(s, id) {
        s.remove(slot_of(s, id))
    } else {
        s
    }
}

/// The ids of the entries of `s` whose flag in `picked` is set, in order.
pub open spec fn chosen_ids<Z>(s: Seq<(ZoneId, u64, Z)>, picked: Seq<bool>) -> Seq<ZoneId>
    decreases s.len(),
{
    if s.len() == 0 || picked.len() == 0 {
        Seq::empty()
    } else {
        let rest = chosen_ids(s.drop_last(), picked.drop_last());
        if picked.last() {
            rest.push(s.last().0)
        } else {
            rest
        }
    }
}

/// The parent to ascend to from `current`: its parent, when `current` is
/// registered, has one, and that parent is registered here too.
pub open spec fn ascent<Z, P: Fn(&Z) -> Option<ZoneId>>(
    s: Seq<(ZoneId, u64, Z)>,
    current: ZoneId,
    parent_of: P,
) -> Option<ZoneId> {
    if has_zone(s, current) {
        match key_of(parent_of, s[slot_of(s, current)].2) {
            Some(p) => if has_zone(s, p) {
                Some(p)
            } else {
                None
            },
            None => None,
        }
    } else {
        None
    }
}

/// The registered zones, in registration order.
pub struct ZoneTable<Z> {
    entries: Vec<(ZoneId, u64, Z)>,
}

impl<Z> View for ZoneTable<Z> {
    type V = Seq<(ZoneId, u64, Z)>;

    closed spec fn view(&self) -> Seq<(ZoneId, u64, Z)> {
        self.entries@
    }
}

/// In a table with unique ids, the slot of a registered id is the one
/// index holding it.
proof fn lemma_slot<Z>(s: Seq<(ZoneId, u64, Z)>, id: ZoneId, i: int)
    requires
        unique_ids(s),
        0 <= i < s.len(),
        s[i].0 == id,
    ensures
        has_zone(s, id),
        slot_of(s, id) == i,
{
    assert(has_zone(s, id));
    let k = slot_of(s, id);
    assert(s[k].0 == id);
}

impl<Z> ZoneTable<Z> {
    /// Every id occurs at most once.
    #[verifier::type_invariant]
    closed spec fn ids_unique(self) -> bool {
        unique_ids(self.entries@)
    }

    /// An empty table.
    pub fn new() -> (t: Self)
        ensures
            t@ == Seq::<(ZoneId, u64, Z)>::empty(),
    {
        ZoneTable { entries: Vec::new() }
    }

    /// Number of registered zones.
    pub fn len(&self) -> (n: usize)
        ensures
            n == self@.len(),
    {
        self.entries.len()
    }

    /// The entries `(id, generation, record)`, in registration order.
    pub fn entries(&self) -> (r: &[(ZoneId, u64, Z)])
        ensures
            r@ == self@,
            unique_ids(self@),
    {
        proof {
            use_type_invariant(self);
        }
        self.entries.as_slice()
    }

    /// Where `id` sits, if registered.
    pub fn position(&self, id: ZoneId) -> (r: Option<usize>)
        ensures
            unique_ids(self@),
            r is Some == has_zone(self@, id),
            r matches Some(i) ==> i == slot_of(self@, id) && self@[i as int].0 == id,
    {
        proof {
            use_type_invariant(self);
        }
        let mut i: usize = 0;
        while i < self.entries.len()
            invariant
                i <= self@.len(),
                self@ == self.entries@,
                unique_ids(self@),
                forall|j: int| 0 <= j < i ==> #[trigger] self@[j].0 != id,
            decreases self@.len() - i,
        {
            if self.entries[i].0 == id {
                proof {
                    lemma_slot(self@, id, i as int);
                }
                return Some(i);
            }
            i = i + 1;
        }
        None
    }

    /// Is a zone with this id registered here?
    pub fn contains(&self, id: ZoneId) -> (b: bool)
        ensures
            b == has_zone(self@, id),
    {
        self.position(id).is_some()
    }

    /// The record of zone `id`.
    pub fn get(&self, id: ZoneId) -> (r: Option<&Z>)
        ensures
            r is Some == has_zone(self@, id),
            r matches Some(z) ==> *z == self@[slot_of(self@, id)].2,
    {
        match self.position(id) {
            Some(i) => Some(&self.entries[i].2),
            None => None,
        }
    }

    /// The ids of the zones whose record `keep` accepts, in registration
    /// order; `keep` (an application filter) is asked once per zone, in
    /// order.
    pub fn ids_where<F: Fn(&Z) -> bool>(&self, keep: F) -> (r: Vec<ZoneId>)
        requires
            forall|z: &Z| #[trigger] keep.requires((z,)),
        ensures
            exists|picked: Seq<bool>|
                {
                    &&& picked.len() == self@.len()
                    &&& forall|i: int|
                        0 <= i < self@.len() ==> call_ensures(keep, (&self@[i].2,), #[trigger] picked[i])
                    &&& r@ == chosen_ids(self@, picked)
                },
    {
        let ghost mut picked: Seq<bool> = Seq::empty();
        let mut out: Vec<ZoneId> = Vec::new();
        let mut i: usize = 0;
        while i < self.entries.len()
            invariant
                i <= self@.len(),
                self@ == self.entries@,
                forall|z: &Z| #[trigger] keep.requires((z,)),
                picked.len() == i,
                forall|k: int| 0 <= k < i ==> call_ensures(keep, (&self@[k].2,), #[trigger] picked[k]),
                out@ == chosen_ids(self@.take(i as int), picked),
            decreases self@.len() - i,
        {
            let b = keep(&self.entries[i].2);
            proof {
                let t = self@.take(i + 1 as int);
                assert(t.drop_last() =~= self@.take(i as int));
                assert(picked.push(b).drop_last() =~= picked);
                picked = picked.push(b);
            }
            if b {
                out.push(self.entries[i].0);
            }
            i = i + 1;
        }
        proof {
            assert(self@.take(self@.len() as int) =~= self@);
        }
        out
    }

    /// The zone keyboard navigation enters when ascending from `current`:
    /// its parent (as `parent_of` reads it from the record), but only when
    /// that parent is registered here too.
    pub fn ascend<P: Fn(&Z) -> Option<ZoneId>>(&self, current: ZoneId, parent_of: P) -> (r: Option<
        ZoneId,
    >)
        requires
            is_key_fn(parent_of),
        ensures
            r == ascent(self@, current, parent_of),
    {
        match self.get(current) {
            Some(z) => match key_for(&parent_of, z) {
                Some(p) => if self.contains(p) {
                    Some(p)
                } else {
                    None
                },
                None => None,
            },
            None => None,
        }
    }

    /// The live registration of zone `id`.
    pub fn current_registration(&self, id: ZoneId) -> (r: Option<ZoneRegistration>)
        ensures
            r is Some == has_zone(self@, id),
            r matches Some(t) ==> t.zone() == id && t.gen() == self@[slot_of(self@, id)].1
                && is_live(self@, t),
    {
        match self.position(id) {
            Some(i) => Some(ZoneRegistration { id, generation: self.entries[i].1 }),
            None => None,
        }
    }

    /// Is this exact registration still the live one?
    pub fn is_current(&self, token: ZoneRegistration) -> (b: bool)
        ensures
            b == is_live(self@, token),
    {
        match self.position(token.id) {
            Some(i) => {
                proof {
                    if is_live(self@, token) {
                        let k = choose|k: int|
                            0 <= k < self@.len() && #[trigger] self@[k].0 == token.zone()
                                && self@[k].1 == token.gen();
                        lemma_slot(self@, token.id, k);
                    }
                }
                self.entries[i].1 == token.generation
            },
            None => false,
        }
    }

    /// Add (or replace, by id) a zone: a replacement keeps its slot in
    /// registration order. Returns the token of this registration.
    pub fn register(&mut self, id: ZoneId, record: Z, generation: u64) -> (token: ZoneRegistration)
        ensures
            final(self)@ == registered(old(self)@, id, record, generation),
            token.zone() == id,
            token.gen() == generation,
    {
        proof {
            use_type_invariant(&*self);
        }
        let found = self.position(id);
        let ghost s0 = self@;
        let mut entries = Vec::new();
        std::mem::swap(&mut entries, &mut self.entries);
        match found {
            Some(i) => {
                entries.set(i, (id, generation, record));
            },
            None => {
                entries.push((id, generation, record));
            },
        }
        proof {
            let s1 = entries@;
            assert forall|a: int, b: int|
                0 <= a < s1.len() && 0 <= b < s1.len() && a != b implies #[trigger] s1[a].0
                != #[trigger] s1[b].0 by {
                if a < s0.len() && b < s0.len() && (found is None || (a != found->Some_0 && b
                    != found->Some_0)) {
                    assert(s1[a] == s0[a] && s1[b] == s0[b]);
                }
            }
        }
        self.entries = entries;
        ZoneRegistration { id, generation }
    }

    /// Remove a zone (its component unmounted). Returns whether it was
    /// registered.
    pub fn unregister(&mut self, id: ZoneId) -> (removed: bool)
        ensures
            final(self)@ == unregistered(old(self)@, id),
            removed == has_zone(old(self)@, id),
    {
        proof {
            use_type_invariant(&*self);
        }
        match self.position(id) {
            Some(i) => {
                let ghost s0 = self@;
                let mut entries = Vec::new();
                std::mem::swap(&mut entries, &mut self.entries);
                entries.remove(i);
                proof {
                    let s1 = entries@;
                    assert forall|a: int, b: int|
                        0 <= a < s1.len() && 0 <= b < s1.len() && a != b implies #[trigger] s1[a].0
                        != #[trigger] s1[b].0 by {
                        let a0 = if a < i {
                            a
                        } else {
                            a + 1
                        };
                        let b0 = if b < i {
                            b
                        } else {
                            b + 1
                        };
                        assert(s1[a] == s0[a0] && s1[b] == s0[b0]);
                    }
                }
                self.entries = entries;
                true
            },
            None => false,
        }
    }

    /// Remove this exact registration if it is still live. A keyed
    /// replacement may mount a new record with the same id before the old
    /// component's cleanup runs; token-aware cleanup cannot delete it.
    pub fn unregister_registration(&mut self, token: ZoneRegistration) -> (removed: bool)
        ensures
            removed == is_live(old(self)@, token),
            final(self)@ == if removed {
                unregistered(old(self)@, token.zone())
            } else {
                old(self)@
            },
    {
        if self.is_current(token) {
            self.unregister(token.id)
        } else {
            false
        }
    }

    /// Replace the record of this exact registration, keeping its slot and
    /// generation. A stale token is ignored (a zone that unmounted or was
    /// replaced meanwhile is never resurrected or overwritten). Returns
    /// whether it replaced.
    pub fn update_if_current(&mut self, token: ZoneRegistration, record: Z) -> (done: bool)
        ensures
            done == is_live(old(self)@, token),
            final(self)@ == if done {
                old(self)@.update(slot_of(old(self)@, token.zone()), (token.zone(), token.gen(), record))
            } else {
                old(self)@
            },
    {
        proof {
            use_type_invariant(&*self);
        }
        let live = self.is_current(token);
        if !live {
            return false;
        }
        let i = match self.position(token.id) {
            Some(i) => i,
            None => return false,
        };
        let ghost s0 = self@;
        let mut entries = Vec::new();
        std::mem::swap(&mut entries, &mut self.entries);
        entries.set(i, (token.id, token.generation, record));
        proof {
            let s1 = entries@;
            assert forall|a: int, b: int|
                0 <= a < s1.len() && 0 <= b < s1.len() && a != b implies #[trigger] s1[a].0
                != #[trigger] s1[b].0 by {
                if a != i && b != i {
                    assert(s1[a] == s0[a] && s1[b] == s0[b]);
                }
            }
        }
        self.entries = entries;
        true
    }
}

/// Registration makes the new token live (and only it, for that id), maps
/// the id to the new record, and keeps a replaced zone in its slot.
pub proof fn law_register_goes_live<Z>(
    s: Seq<(ZoneId, u64, Z)>,
    id: ZoneId,
    record: Z,
    generation: u64,
    fresh: ZoneRegistration,
    stale: ZoneRegistration,
)
    requires
        unique_ids(s),
        fresh.zone() == id,
        fresh.gen() == generation,
        stale.zone() == id,
        stale.gen() != generation,
    ensures
        ({
            let t = registered(s, id, record, generation);
            &&& unique_ids(t)
            &&& has_zone(t, id)
            &&& t[slot_of(t, id)] == (id, generation, record)
            &&& is_live(t, fresh)
            &&& !is_live(t, stale)
            &&& has_zone(s, id) ==> slot_of(t, id) == slot_of(s, id) && t.len() == s.len()
            &&& !has_zone(s, id) ==> slot_of(t, id) == s.len() && t.len() == s.len() + 1
        }),
{
    let t = registered(s, id, record, generation);
    let k = if has_zone(s, id) {
        slot_of(s, id)
    } else {
        s.len() as int
    };
    assert(t[k] == (id, generation, record));
    assert(unique_ids(t)) by {
        assert forall|a: int, b: int|
            0 <= a < t.len() && 0 <= b < t.len() && a != b implies #[trigger] t[a].0
            != #[trigger] t[b].0 by {
            if a != k && b != k {
                assert(t[a] == s[a] && t[b] == s[b]);
            } else if a == k {
                assert(t[b] == s[b]);
            } else {
                assert(t[a] == s[a]);
            }
        }
    }
    lemma_slot(t, id, k);
    if is_live(t, stale) {
        let j = choose|j: int|
            0 <= j < t.len() && #[trigger] t[j].0 == id && t[j].1 == stale.gen();
        assert(j == k);
    }
}

/// Stale cleanup cannot delete a replacement: once a zone id has been
/// re-registered under a new generation, the old registration's cleanup
/// leaves the table untouched.
pub proof fn law_stale_cleanup_keeps_replacement<Z>(
    s: Seq<(ZoneId, u64, Z)>,
    id: ZoneId,
    record: Z,
    new_generation: u64,
    replacement: ZoneRegistration,
    stale: ZoneRegistration,
)
    requires
        unique_ids(s),
        replacement.zone() == id,
        replacement.gen() == new_generation,
        stale.zone() == id,
        stale.gen() != new_generation,
    ensures
        !is_live(registered(s, id, record, new_generation), stale),
        is_live(registered(s, id, record, new_generation), replacement),
{
    law_register_goes_live(s, id, record, new_generation, replacement, stale);
}

/// Unregistering removes the zone and nothing else: every other zone keeps
/// its record and relative order, and no token of the removed id is live.
pub proof fn law_unregister_removes_only_that_zone<Z>(
    s: Seq<(ZoneId, u64, Z)>,
    id: ZoneId,
    token: ZoneRegistration,
)
    requires
        unique_ids(s),
        token.zone() == id,
    ensures
        ({
            let t = unregistered(s, id);
            &&& !has_zone(t, id)
            &&& !is_live(t, token)
            &&& forall|other: ZoneId| other != id ==> has_zone(t, other) == has_zone(s, other)
            &&& t == s.filter(|e: (ZoneId, u64, Z)| e.0 != id)
        }),
{
    let t = unregistered(s, id);
    let pred = |e: (ZoneId, u64, Z)| e.0 != id;
    if has_zone(s, id) {
        let k = slot_of(s, id);
        assert(s[k].0 == id);
        assert forall|i: int| 0 <= i < t.len() implies #[trigger] t[i].0 != id by {
            if i < k {
                assert(t[i] == s[i]);
            } else {
                assert(t[i] == s[i + 1]);
            }
        }
        assert forall|other: ZoneId| other != id implies has_zone(t, other) == has_zone(s, other) by {
            if has_zone(s, other) {
                let j = choose|j: int| 0 <= j < s.len() && #[trigger] s[j].0 == other;
                if j < k {
                    assert(t[j] == s[j]);
                } else {
                    assert(t[j - 1] == s[j]);
                }
            }
            if has_zone(t, other) {
                let j = choose|j: int| 0 <= j < t.len() && #[trigger] t[j].0 == other;
                if j < k {
                    assert(t[j] == s[j]);
                } else {
                    assert(t[j] == s[j + 1]);
                }
            }
        }
        lemma_filter_removes_one(s, id, k);
    } else {
        assert forall|i: int| 0 <= i < s.len() implies pred(#[trigger] s[i]) by {
            assert(s[i].0 != id);
        }
        lemma_filter_keeps_all(s, pred);
    }
}

/// Filtering with a predicate every element satisfies changes nothing.
proof fn lemma_filter_keeps_all<A>(s: Seq<A>, pred: spec_fn(A) -> bool)
    requires
        forall|i: int| 0 <= i < s.len() ==> pred(#[trigger] s[i]),
    ensures
        s.filter(pred) == s,
    decreases s.len(),
{
    reveal(Seq::filter);
    if s.len() > 0 {
        let d = s.drop_last();
        assert forall|i: int| 0 <= i < d.len() implies pred(#[trigger] d[i]) by {
            assert(d[i] == s[i]);
        }
        lemma_filter_keeps_all(d, pred);
        assert(s =~= d.push(s.last()));
    }
}

/// With unique ids, filtering out `id` is removing its one slot.
proof fn lemma_filter_removes_one<Z>(s: Seq<(ZoneId, u64, Z)>, id: ZoneId, k: int)
    requires
        unique_ids(s),
        0 <= k < s.len(),
        s[k].0 == id,
    ensures
        s.filter(|e: (ZoneId, u64, Z)| e.0 != id) == s.remove(k),
    decreases s.len(),
{
    let pred = |e: (ZoneId, u64, Z)| e.0 != id;
    reveal(Seq::filter);
    let d = s.drop_last();
    if k == s.len() - 1 {
        assert forall|i: int| 0 <= i < d.len() implies pred(#[trigger] d[i]) by {
            assert(d[i] == s[i]);
            assert(s[i].0 != s[k].0);
        }
        lemma_filter_keeps_all(d, pred);
        assert(s.remove(k) =~= d);
    } else {
        assert(unique_ids(d)) by {
            assert forall|a: int, b: int|
                0 <= a < d.len() && 0 <= b < d.len() && a != b implies #[trigger] d[a].0
                != #[trigger] d[b].0 by {
                assert(d[a] == s[a] && d[b] == s[b]);
            }
        }
        assert(d[k] == s[k]);
        lemma_filter_removes_one(d, id, k);
        assert(s.last().0 != id) by {
            assert(s[s.len() - 1].0 != s[k].0);
        }
        assert(s.remove(k) =~= d.remove(k).push(s.last()));
    }
}

/// Registrations whose generations come from one counter never revive an
/// older token: after an id is registered again under a later number, a
/// token holding an earlier number is stale, and the new one is live.
pub proof fn law_counted_registrations_retire_older_tokens<Z>(
    s: Seq<(ZoneId, u64, Z)>,
    id: ZoneId,
    record: Z,
    counter: u64,
    earlier: nat,
    later: nat,
    older: ZoneRegistration,
    newer: ZoneRegistration,
)
    requires
        unique_ids(s),
        earlier < later,
        counter + later <= u64::MAX,
        older.zone() == id,
        older.gen() == nth_id(counter, earlier),
        newer.zone() == id,
        newer.gen() == nth_id(counter, later),
    ensures
        !is_live(registered(s, id, record, nth_id(counter, later)), older),
        is_live(registered(s, id, record, nth_id(counter, later)), newer),
{
    law_every_auto_id_is_fresh(counter, earlier, later);
    law_stale_cleanup_keeps_replacement(s, id, record, nth_id(counter, later), newer, older);
}

} // verus!
