//! Fresh identities: the numbering behind `ZoneId::auto`, `DragId::auto`,
//! `DragSessionId::auto` and the world's window keys and generations.
//!
//! A sequence is a plain value that the host keeps for the whole process
//! (one for zone and item ids, one for gesture sessions); each call hands
//! out its current number and moves it on.

use vstd::prelude::*;
use crate::types::{is_auto_range, DragId, DragSessionId, ZoneId, AUTO_ID_BASE};

verus! {

/// The number after `n` in a sequence of ids. The last `u64` is never
/// passed: there the sequence stays put rather than wrapping round into the
/// range of explicit ids.
pub open spec fn advanced(n: u64) -> u64 {
    if n < u64::MAX {
        (n + 1) as u64
    } else {
        n
    }
}

/// Source of automatically generated zone and item ids. Zone ids and item
/// ids share one sequence, and every number it yields is at least
/// [`AUTO_ID_BASE`].
pub struct AutoIds {
    next: u64,
}

impl View for AutoIds {
    type V = u64;

    /// The number the next call will hand out.
    closed spec fn view(&self) -> u64 {
        self.next
    }
}

impl AutoIds {
    #[verifier::type_invariant]
    spec fn in_auto_range(self) -> bool {
        is_auto_range(self.next)
    }

    /// A fresh sequence, starting at [`AUTO_ID_BASE`].
    pub fn new() -> (s: Self)
        ensures
            s@ == AUTO_ID_BASE,
    {
        AutoIds { next: AUTO_ID_BASE }
    }

    /// Hand out the current number and move the sequence on.
    fn take_next(&mut self) -> (n: u64)
        ensures
            n == old(self)@,
            is_auto_range(n),
            final(self)@ == advanced(old(self)@),
    {
        proof {
            use_type_invariant(&*self);
        }
        let n = self.next;
        if n < u64::MAX {
            self.next = n + 1;
        }
        n
    }
}

/// A plain counter starting at 1: the source of gesture session ids, window
/// keys, and the generations that tell one world drag or settle claim from
/// the next.
pub struct Counter {
    next: u64,
}

impl View for Counter {
    type V = u64;

    /// The number the next call will hand out.
    closed spec fn view(&self) -> u64 {
        self.next
    }
}

impl Counter {
    #[verifier::type_invariant]
    spec fn positive(self) -> bool {
        self.next >= 1
    }

    /// A fresh counter; its first number is 1.
    pub fn new() -> (s: Self)
        ensures
            s@ == 1,
    {
        Counter { next: 1 }
    }

    /// Hand out the current number and move on.
    pub fn take_next(&mut self) -> (n: u64)
        ensures
            n == old(self)@,
            n >= 1,
            final(self)@ == advanced(old(self)@),
    {
        proof {
            use_type_invariant(&*self);
        }
        let n = self.next;
        if n < u64::MAX {
            self.next = n + 1;
        }
        n
    }
}

impl ZoneId {
    /// Generate a zone id that no earlier call on `ids` produced. Auto ids
    /// live at `2^32` and above, so they never collide with an explicit id
    /// that fits in a `u32`.
    pub fn auto(ids: &mut AutoIds) -> (z: Self)
        ensures
            z.0 == old(ids)@,
            is_auto_range(z.0),
            final(ids)@ == advanced(old(ids)@),
    {
        ZoneId(ids.take_next())
    }
}

impl DragId {
    /// Generate an item id from the same sequence as [`ZoneId::auto`].
    pub fn auto(ids: &mut AutoIds) -> (d: Self)
        ensures
            d.0 == old(ids)@,
            is_auto_range(d.0),
            final(ids)@ == advanced(old(ids)@),
    {
        DragId(ids.take_next())
    }
}

impl DragSessionId {
    /// Generate the id of a new pointer gesture.
    pub fn auto(ids: &mut Counter) -> (s: Self)
        ensures
            s.0 == old(ids)@,
            s.0 >= 1,
            final(ids)@ == advanced(old(ids)@),
    {
        DragSessionId(ids.take_next())
    }
}

/// Successive ids of one sequence are strictly increasing, hence distinct,
/// until the sequence reaches the last `u64`; and a sequence that starts in
/// the automatic range never leaves it.
pub proof fn law_ids_are_fresh_and_increasing(n: u64)
    requires
        n < u64::MAX,
    ensures
        advanced(n) > n,
        is_auto_range(n) ==> is_auto_range(advanced(n)),
{
}

/// The number a sequence that stands at `start` hands out on its `i`-th
/// call from now (counting from 0).
pub open spec fn nth_id(start: u64, i: nat) -> u64
    decreases i,
{
    if i == 0 {
        start
    } else {
        advanced(nth_id(start, (i - 1) as nat))
    }
}

/// Below the end of `u64`, the `i`-th number is `start + i`.
pub proof fn lemma_nth_id(start: u64, i: nat)
    requires
        start + i <= u64::MAX,
    ensures
        nth_id(start, i) == start + i,
    decreases i,
{
    if i > 0 {
        lemma_nth_id(start, (i - 1) as nat);
    }
}

/// A sequence that starts in the automatic range stays in it, whatever
/// number of calls it serves.
pub proof fn lemma_nth_id_stays_automatic(start: u64, i: nat)
    requires
        is_auto_range(start),
    ensures
        is_auto_range(nth_id(start, i)),
    decreases i,
{
    if i > 0 {
        lemma_nth_id_stays_automatic(start, (i - 1) as nat);
    }
}

/// After one call, the sequence continues where it stood one call later.
pub proof fn lemma_nth_id_shift(start: u64, i: nat)
    ensures
        nth_id(advanced(start), i) == nth_id(start, i + 1),
    decreases i,
{
    assert(nth_id(start, i + 1) == advanced(nth_id(start, i)));
    if i > 0 {
        lemma_nth_id_shift(start, (i - 1) as nat);
        assert(nth_id(start, ((i - 1) as nat) + 1) == nth_id(start, i));
    }
}

/// Every id a sequence hands out differs from every id it handed out
/// before (until the sequence reaches the end of `u64`), and ids drawn from
/// a fresh `AutoIds` (zone and item ids alike) all lie at or above
/// `AUTO_ID_BASE`, so no explicit `u32`-sized id can equal one.
pub proof fn law_every_auto_id_is_fresh(start: u64, earlier: nat, later: nat)
    requires
        earlier < later,
        start + later <= u64::MAX,
    ensures
        nth_id(start, earlier) < nth_id(start, later),
        nth_id(start, earlier) != nth_id(start, later),
        is_auto_range(nth_id(AUTO_ID_BASE, later)),
        nth_id(advanced(start), earlier) == nth_id(start, earlier + 1),
{
    lemma_nth_id_shift(start, earlier);
    lemma_nth_id(start, earlier);
    lemma_nth_id(start, later);
    lemma_nth_id_stays_automatic(AUTO_ID_BASE, later);
}

} // verus!
