//! Which element may activate a drag.

use vstd::prelude::*;

verus! {

/// Which element is allowed to activate a drag.
#[derive(Debug, Clone, Copy, PartialEq, Eq, Structural)]
#[non_exhaustive]
pub enum Activator {
    /// The whole draggable surface activates the drag (the default).
    Surface,
    /// Only a nested drag handle activates the drag.
    Handle,
    /// No built-in pointer or keyboard input activates the drag.
    Manual,
}

impl Default for Activator {
    fn default() -> (a: Self)
        ensures
            a == Activator::Surface,
    {
        Activator::Surface
    }
}

} // verus!

verus! {

/// A condition that promotes a pointer press into a drag. `L` is the
/// host's length in CSS pixels; the structure of a policy does not depend
/// on it, only the geometric tests the host makes with it.
#[derive(Debug, PartialEq)]
#[non_exhaustive]
pub enum ActivationConstraint<L> {
    /// Promote after travelling this far.
    Distance(L),
    /// Promote after a delay, provided movement stays inside `tolerance`.
    Delay { duration_ms: u32, tolerance: L },
    /// Promote when any contained constraint succeeds.
    Either(Vec<ActivationConstraint<L>>),
    /// Never promote automatically; custom code starts the drag.
    Manual,
}

/// No built-in event can promote `c`: it is `Manual`, or a disjunction all
/// of whose alternatives are manual (an empty one among them).
pub open spec fn manual_spec<L>(c: ActivationConstraint<L>) -> bool
    decreases c,
{
    match c {
        ActivationConstraint::Manual => true,
        ActivationConstraint::Either(items) => all_manual(items@),
        _ => false,
    }
}

/// Every constraint of `items` is manual.
pub open spec fn all_manual<L>(items: Seq<ActivationConstraint<L>>) -> bool
    decreases items,
{
    if items.len() == 0 {
        true
    } else {
        all_manual(items.subrange(0, items.len() - 1)) && manual_spec(items[items.len() - 1])
    }
}

/// A sequence of constraints is all manual exactly when each one is.
pub proof fn lemma_all_manual<L>(items: Seq<ActivationConstraint<L>>)
    ensures
        all_manual(items) <==> forall|k: int| 0 <= k < items.len() ==> #[trigger] manual_spec(items[k]),
    decreases items.len(),
{
    if items.len() > 0 {
        let init = items.subrange(0, items.len() - 1);
        lemma_all_manual(init);
        assert(all_manual(items) == (all_manual(init) && manual_spec(items[items.len() - 1])));
        if all_manual(items) {
            assert forall|k: int| 0 <= k < items.len() implies #[trigger] manual_spec(items[k]) by {
                if k < items.len() - 1 {
                    assert(init[k] == items[k]);
                }
            }
        }
        if forall|k: int| 0 <= k < items.len() ==> #[trigger] manual_spec(items[k]) {
            assert forall|k: int| 0 <= k < init.len() implies #[trigger] manual_spec(init[k]) by {
                assert(init[k] == items[k]);
            }
        }
    }
}

/// Every delay alternative in `c`, depth first and in order, each with its
/// own duration and tolerance.
pub open spec fn delays_of<L>(c: ActivationConstraint<L>) -> Seq<(u32, L)>
    decreases c,
{
    match c {
        ActivationConstraint::Delay { duration_ms, tolerance } => seq![(duration_ms, tolerance)],
        ActivationConstraint::Either(items) => delays_of_all(items@),
        _ => Seq::empty(),
    }
}

/// The delay alternatives of each constraint of `items`, concatenated.
pub open spec fn delays_of_all<L>(items: Seq<ActivationConstraint<L>>) -> Seq<(u32, L)>
    decreases items,
{
    if items.len() == 0 {
        Seq::empty()
    } else {
        delays_of_all(items.subrange(0, items.len() - 1)) + delays_of(items[items.len() - 1])
    }
}

/// Every distance threshold in `c`, depth first and in order.
pub open spec fn distances_of<L>(c: ActivationConstraint<L>) -> Seq<L>
    decreases c,
{
    match c {
        ActivationConstraint::Distance(d) => seq![d],
        ActivationConstraint::Either(items) => distances_of_all(items@),
        _ => Seq::empty(),
    }
}

/// The distance thresholds of each constraint of `items`, concatenated.
pub open spec fn distances_of_all<L>(items: Seq<ActivationConstraint<L>>) -> Seq<L>
    decreases items,
{
    if items.len() == 0 {
        Seq::empty()
    } else {
        distances_of_all(items.subrange(0, items.len() - 1)) + distances_of(items[items.len() - 1])
    }
}

/// `s[j]` is the earliest entry with the shortest duration in `s`.
pub open spec fn is_earliest_shortest<L>(s: Seq<(u32, L)>, j: int) -> bool {
    &&& 0 <= j < s.len()
    &&& forall|i: int| 0 <= i < s.len() ==> s[j].0 <= #[trigger] s[i].0
    &&& forall|i: int| 0 <= i < j ==> s[j].0 < #[trigger] s[i].0
}

impl<L: Copy> ActivationConstraint<L> {
    /// Append the delay alternatives of this constraint to `delays`.
    fn collect_delays(&self, delays: &mut Vec<(u32, L)>)
        ensures
            final(delays)@ == old(delays)@ + delays_of(*self),
        decreases self,
    {
        match self {
            ActivationConstraint::Delay { duration_ms, tolerance } => {
                delays.push((*duration_ms, *tolerance));
            },
            ActivationConstraint::Either(items) => {
                let ghost start = delays@;
                let mut i: usize = 0;
                while i < items.len()
                    invariant
                        i <= items@.len(),
                        delays@ == start + delays_of_all(items@.subrange(0, i as int)),
                        delays_of(*self) == delays_of_all(items@),
                        *self == ActivationConstraint::Either(*items),
                    decreases items@.len() - i,
                {
                    assert(items@.subrange(0, i + 1).subrange(0, i as int) =~= items@.subrange(0, i as int));
                    items[i].collect_delays(delays);
                    i = i + 1;
                }
                assert(items@.subrange(0, items@.len() as int) =~= items@);
            },
            _ => {},
        }
    }

    /// Append the distance thresholds of this constraint to `out`.
    fn collect_distances(&self, out: &mut Vec<L>)
        ensures
            final(out)@ == old(out)@ + distances_of(*self),
        decreases self,
    {
        match self {
            ActivationConstraint::Distance(d) => {
                out.push(*d);
            },
            ActivationConstraint::Either(items) => {
                let ghost start = out@;
                let mut i: usize = 0;
                while i < items.len()
                    invariant
                        i <= items@.len(),
                        out@ == start + distances_of_all(items@.subrange(0, i as int)),
                        distances_of(*self) == distances_of_all(items@),
                        *self == ActivationConstraint::Either(*items),
                    decreases items@.len() - i,
                {
                    assert(items@.subrange(0, i + 1).subrange(0, i as int) =~= items@.subrange(0, i as int));
                    items[i].collect_distances(out);
                    i = i + 1;
                }
                assert(items@.subrange(0, items@.len() as int) =~= items@);
            },
            _ => {},
        }
    }

    /// Every delay alternative, each keeping its own clock and tolerance.
    pub fn delays(&self) -> (r: Vec<(u32, L)>)
        ensures
            r@ == delays_of(*self),
    {
        let mut delays = Vec::new();
        self.collect_delays(&mut delays);
        assert(delays@ =~= delays_of(*self));
        delays
    }

    /// Every distance threshold, in order. The smallest of them (not below
    /// zero) is the one the host promotes on.
    pub fn distances(&self) -> (r: Vec<L>)
        ensures
            r@ == distances_of(*self),
    {
        let mut out = Vec::new();
        self.collect_distances(&mut out);
        assert(out@ =~= distances_of(*self));
        out
    }

    /// Shortest configured delay and its movement tolerance; of several
    /// equally short, the first.
    pub fn delay(&self) -> (r: Option<(u32, L)>)
        ensures
            r is None <==> delays_of(*self).len() == 0,
            r matches Some(d) ==> exists|j: int|
                is_earliest_shortest(delays_of(*self), j) && d == delays_of(*self)[j],
    {
        let delays = self.delays();
        let ghost s = delays@;
        if delays.len() == 0 {
            return None;
        }
        let mut best: usize = 0;
        let mut i: usize = 1;
        while i < delays.len()
            invariant
                s == delays@,
                s == delays_of(*self),
                0 <= best < i <= s.len(),
                forall|k: int| 0 <= k < i ==> s[best as int].0 <= #[trigger] s[k].0,
                forall|k: int| 0 <= k < best ==> s[best as int].0 < #[trigger] s[k].0,
            decreases s.len() - i,
        {
            if delays[i].0 < delays[best].0 {
                best = i;
            }
            i = i + 1;
        }
        assert(is_earliest_shortest(s, best as int));
        Some(delays[best])
    }
}

impl<L> ActivationConstraint<L> {
    /// Whether no built-in event may promote this policy. An empty
    /// disjunction can never promote, just like `Manual`.
    pub fn is_manual(&self) -> (b: bool)
        ensures
            b == manual_spec(*self),
        decreases self,
    {
        match self {
            ActivationConstraint::Manual => true,
            ActivationConstraint::Either(items) => {
                let mut i: usize = 0;
                while i < items.len()
                    invariant
                        i <= items@.len(),
                        *self == ActivationConstraint::Either(*items),
                        decreases_to!(*self => *items),
                        forall|k: int| 0 <= k < i ==> #[trigger] manual_spec(items@[k]),
                    decreases items@.len() - i,
                {
                    proof {
                        assert(decreases_to!(*items => items@[i as int]));
                    }
                    let manual = items[i].is_manual();
                    if !manual {
                        proof {
                            lemma_all_manual(items@);
                        }
                        return false;
                    }
                    i = i + 1;
                }
                proof {
                    lemma_all_manual(items@);
                }
                true
            },
            _ => false,
        }
    }
}

/// Complete activation policy for a draggable source.
#[derive(Debug, PartialEq)]
#[non_exhaustive]
pub struct ActivationPolicy<L> {
    pub activator: Activator,
    pub constraint: ActivationConstraint<L>,
}

impl<L> ActivationPolicy<L> {
    /// The whole surface activates, under `constraint`.
    pub fn surface(constraint: ActivationConstraint<L>) -> (p: Self)
        ensures
            p == (ActivationPolicy { activator: Activator::Surface, constraint }),
    {
        ActivationPolicy { activator: Activator::Surface, constraint }
    }

    /// Only a drag handle activates, under `constraint`.
    pub fn handle(constraint: ActivationConstraint<L>) -> (p: Self)
        ensures
            p == (ActivationPolicy { activator: Activator::Handle, constraint }),
    {
        ActivationPolicy { activator: Activator::Handle, constraint }
    }

    /// Nothing built in activates.
    pub fn manual() -> (p: Self)
        ensures
            p == (ActivationPolicy::<L> {
                activator: Activator::Manual,
                constraint: ActivationConstraint::Manual,
            }),
    {
        ActivationPolicy { activator: Activator::Manual, constraint: ActivationConstraint::Manual }
    }
}

} // verus!
