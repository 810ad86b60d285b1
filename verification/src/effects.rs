//! Target-side acceptance and drop-effect negotiation.

use core::ops::{BitOr, BitOrAssign};
use vstd::prelude::*;
use vstd::std_specs::ops::BitOrSpecImpl;

use crate::types::{DragId, DragMode, DropEffect, PointerKind, ZoneId};

verus! {

/// A compact set of drop effects a target supports: one bit for each of
/// Move, Copy and Link.
#[derive(Debug, Clone, Copy, PartialEq, Eq, Hash, Structural)]
pub struct DropEffects(u8);

/// The bit that stands for an effect (none for `Disabled`).
pub open spec fn effect_bit(effect: DropEffect) -> u8 {
    match effect {
        DropEffect::Move => 1u8,
        DropEffect::Copy => 2u8,
        DropEffect::Link => 4u8,
        DropEffect::Disabled => 0u8,
    }
}

/// Membership of an effect in a raw bit set.
pub open spec fn bits_contain(bits: u8, effect: DropEffect) -> bool {
    effect != DropEffect::Disabled && (bits & effect_bit(effect)) != 0
}

/// What negotiation settles on: the proposal when supported, else the
/// first supported of Move, Copy, Link; never `Disabled`.
pub open spec fn negotiate_bits(bits: u8, proposed: DropEffect) -> Option<DropEffect> {
    if proposed == DropEffect::Disabled {
        None
    } else if bits_contain(bits, proposed) {
        Some(proposed)
    } else if bits_contain(bits, DropEffect::Move) {
        Some(DropEffect::Move)
    } else if bits_contain(bits, DropEffect::Copy) {
        Some(DropEffect::Copy)
    } else if bits_contain(bits, DropEffect::Link) {
        Some(DropEffect::Link)
    } else {
        None
    }
}

impl DropEffects {
    /// The empty set: a target that supports no effect.
    pub fn empty() -> (s: Self)
        ensures
            !s.has(DropEffect::Move) && !s.has(DropEffect::Copy) && !s.has(DropEffect::Link),
    {
        proof {
            lemma_literal_bits();
        }
        DropEffects(0)
    }

    /// The set holding just `effect` (empty for `Disabled`).
    pub fn only(effect: DropEffect) -> (s: Self)
        ensures
            forall|e: DropEffect| #[trigger] s.has(e) == (e == effect && e != DropEffect::Disabled),
    {
        proof {
            lemma_literal_bits();
        }
        match effect {
            DropEffect::Move => DropEffects(1),
            DropEffect::Copy => DropEffects(2),
            DropEffect::Link => DropEffects(4),
            DropEffect::Disabled => DropEffects(0),
        }
    }

    /// Move, Copy and Link: every standard effect.
    pub fn standard() -> (s: Self)
        ensures
            s.has(DropEffect::Move) && s.has(DropEffect::Copy) && s.has(DropEffect::Link),
    {
        proof {
            lemma_literal_bits();
        }
        DropEffects(7)
    }

    /// Every effect a target can support; the same set as [`Self::standard`].
    pub fn all() -> (s: Self)
        ensures
            s.has(DropEffect::Move) && s.has(DropEffect::Copy) && s.has(DropEffect::Link),
    {
        proof {
            lemma_literal_bits();
        }
        DropEffects(7)
    }

    /// Only the three standard bits are ever set.
    #[verifier::type_invariant]
    pub closed spec fn wf(self) -> bool {
        self.0 <= 7
    }

    /// The raw bits of the set.
    pub closed spec fn bits(self) -> u8 {
        self.0
    }

    /// The union of two sets, bit by bit.
    pub closed spec fn joined(self, other: Self) -> Self {
        DropEffects(self.0 | other.0)
    }

    /// Is `effect` in this set? `Disabled` never is.
    pub open spec fn has(self, effect: DropEffect) -> bool {
        bits_contain(self.bits(), effect)
    }

    /// What [`Self::negotiate`] returns.
    pub open spec fn negotiated(self, proposed: DropEffect) -> Option<DropEffect> {
        negotiate_bits(self.bits(), proposed)
    }

    /// The set holding exactly the listed effects.
    pub fn of(move_: bool, copy: bool, link: bool) -> (s: Self)
        ensures
            s.has(DropEffect::Move) == move_,
            s.has(DropEffect::Copy) == copy,
            s.has(DropEffect::Link) == link,
    {
        let m: u8 = if move_ { 1 } else { 0 };
        let c: u8 = if copy { 2 } else { 0 };
        let l: u8 = if link { 4 } else { 0 };
        let bits: u8 = m | c | l;
        assert((m == 0u8 || m == 1u8) && (c == 0u8 || c == 2u8) && (l == 0u8 || l == 4u8) ==> {
            let b = m | c | l;
            &&& b <= 7
            &&& ((b & 1u8) != 0) == (m == 1u8)
            &&& ((b & 2u8) != 0) == (c == 2u8)
            &&& ((b & 4u8) != 0) == (l == 4u8)
        }) by (bit_vector);
        DropEffects(bits)
    }

    /// Does the set contain `effect`? `Disabled` is never contained.
    pub fn contains(self, effect: DropEffect) -> (b: bool)
        ensures
            b == self.has(effect),
    {
        let flag: u8 = match effect {
            DropEffect::Move => 1,
            DropEffect::Copy => 2,
            DropEffect::Link => 4,
            DropEffect::Disabled => return false,
        };
        self.0 & flag != 0
    }

    /// Is the set empty?
    pub fn is_empty(self) -> (b: bool)
        ensures
            b == (!self.has(DropEffect::Move) && !self.has(DropEffect::Copy) && !self.has(
                DropEffect::Link,
            )),
    {
        proof {
            use_type_invariant(&self);
            let x = self.0;
            assert(x <= 7 ==> ((x == 0) == ((x & 1u8) == 0 && (x & 2u8) == 0 && (x & 4u8) == 0)))
                by (bit_vector);
        }
        self.0 == 0
    }

    /// Accept the proposed effect or choose a deterministic supported
    /// fallback (Move, then Copy, then Link). `Disabled` is never chosen as
    /// a fallback for an active drop.
    pub fn negotiate(self, proposed: DropEffect) -> (r: Option<DropEffect>)
        ensures
            r == self.negotiated(proposed),
    {
        if proposed == DropEffect::Disabled {
            return None;
        }
        if self.contains(proposed) {
            return Some(proposed);
        }
        if self.contains(DropEffect::Move) {
            Some(DropEffect::Move)
        } else if self.contains(DropEffect::Copy) {
            Some(DropEffect::Copy)
        } else if self.contains(DropEffect::Link) {
            Some(DropEffect::Link)
        } else {
            None
        }
    }

    /// Add every effect of `other` to this set.
    pub fn insert_all(&mut self, other: Self)
        ensures
            forall|e: DropEffect| #[trigger]
                final(self).has(e) == (old(self).has(e) || other.has(e)),
    {
        proof {
            lemma_union_bits(self.bits(), other.bits());
        }
        let joined = *self | other;
        *self = joined;
    }
}

/// Membership facts of the literal sets.
proof fn lemma_literal_bits()
    ensures
        (0u8 & 1u8) == 0 && (0u8 & 2u8) == 0 && (0u8 & 4u8) == 0,
        (1u8 & 1u8) != 0 && (1u8 & 2u8) == 0 && (1u8 & 4u8) == 0,
        (2u8 & 1u8) == 0 && (2u8 & 2u8) != 0 && (2u8 & 4u8) == 0,
        (4u8 & 1u8) == 0 && (4u8 & 2u8) == 0 && (4u8 & 4u8) != 0,
        (7u8 & 1u8) != 0 && (7u8 & 2u8) != 0 && (7u8 & 4u8) != 0,
{
    assert((0u8 & 1u8) == 0 && (0u8 & 2u8) == 0 && (0u8 & 4u8) == 0) by (bit_vector);
    assert((1u8 & 1u8) != 0 && (1u8 & 2u8) == 0 && (1u8 & 4u8) == 0) by (bit_vector);
    assert((2u8 & 1u8) == 0 && (2u8 & 2u8) != 0 && (2u8 & 4u8) == 0) by (bit_vector);
    assert((4u8 & 1u8) == 0 && (4u8 & 2u8) == 0 && (4u8 & 4u8) != 0) by (bit_vector);
    assert((7u8 & 1u8) != 0 && (7u8 & 2u8) != 0 && (7u8 & 4u8) != 0) by (bit_vector);
}

/// Union of two sets, bit by bit.
pub proof fn lemma_union_bits(a: u8, b: u8)
    ensures
        a <= 7 && b <= 7 ==> (a | b) <= 7,
        forall|e: DropEffect| #[trigger]
            bits_contain(a | b, e) == (bits_contain(a, e) || bits_contain(b, e)),
{
    assert(a <= 7 && b <= 7 ==> (a | b) <= 7) by (bit_vector);
    assert({
        &&& (((a | b) & 1u8) != 0) == ((a & 1u8) != 0 || (b & 1u8) != 0)
        &&& (((a | b) & 2u8) != 0) == ((a & 2u8) != 0 || (b & 2u8) != 0)
        &&& (((a | b) & 4u8) != 0) == ((a & 4u8) != 0 || (b & 4u8) != 0)
    }) by (bit_vector);
}

impl BitOr for DropEffects {
    type Output = Self;

    fn bitor(self, rhs: Self) -> (r: Self::Output) {
        proof {
            use_type_invariant(&self);
            use_type_invariant(&rhs);
            lemma_union_bits(self.0, rhs.0);
        }
        DropEffects(self.0 | rhs.0)
    }
}

impl BitOrSpecImpl for DropEffects {
    open spec fn obeys_bitor_spec() -> bool {
        true
    }

    open spec fn bitor_req(self, rhs: Self) -> bool {
        true
    }

    open spec fn bitor_spec(self, rhs: Self) -> Self {
        self.joined(rhs)
    }
}

impl BitOrAssign for DropEffects {
    fn bitor_assign(&mut self, rhs: Self)
        ensures
            *final(self) == old(self).joined(rhs),
            forall|e: DropEffect| #[trigger]
                final(self).has(e) == (old(self).has(e) || rhs.has(e)),
    {
        proof {
            use_type_invariant(&*self);
            use_type_invariant(&rhs);
            lemma_union_bits(self.0, rhs.0);
        }
        let joined = *self | rhs;
        *self = joined;
    }
}

impl Default for DropEffects {
    fn default() -> (s: Self)
        ensures
            s.has(DropEffect::Move) && s.has(DropEffect::Copy) && s.has(DropEffect::Link),
    {
        proof {
            lemma_literal_bits();
        }
        DropEffects(7)
    }
}

/// Union is membership-wise disjunction: `(a | b)` contains exactly what
/// either side contains.
pub proof fn law_union_contains_either_side(a: DropEffects, b: DropEffects, e: DropEffect)
    ensures
        a.joined(b).has(e) == (a.has(e) || b.has(e)),
{
    lemma_union_bits(a.0, b.0);
}

/// Negotiation never settles on `Disabled`, only ever picks a supported
/// effect, keeps a supported proposal as-is, and refuses exactly when the
/// proposal is `Disabled` or the set is empty.
pub proof fn negotiation_law(s: DropEffects, proposed: DropEffect)
    ensures
        s.negotiated(proposed) != Some(DropEffect::Disabled),
        s.negotiated(proposed) matches Some(e) ==> s.has(e),
        s.has(proposed) ==> s.negotiated(proposed) == Some(proposed),
        (s.negotiated(proposed) is None) == (proposed == DropEffect::Disabled || (!s.has(
            DropEffect::Move,
        ) && !s.has(DropEffect::Copy) && !s.has(DropEffect::Link))),
{
}

/// Full target-side acceptance input: what a zone's acceptance policy
/// sees about the drag it is asked to receive.
#[derive(Debug, Clone, PartialEq)]
#[non_exhaustive]
pub struct DropQuery<T> {
    pub payload: T,
    pub source: Option<ZoneId>,
    pub proposed_effect: DropEffect,
    pub mode: DragMode,
    pub pointer_kind: PointerKind,
    pub drag_id: Option<DragId>,
}

impl<T> DropQuery<T> {
    /// A query for `payload` with default metadata: no source, a Move
    /// proposal, a pointer drag by mouse, no drag id.
    pub fn new(payload: T) -> (q: Self)
        ensures
            q.payload == payload,
            q.source is None,
            q.proposed_effect == DropEffect::Move,
            q.mode == DragMode::Pointer,
            q.pointer_kind == PointerKind::Mouse,
            q.drag_id is None,
    {
        DropQuery {
            payload,
            source: None,
            proposed_effect: DropEffect::Move,
            mode: DragMode::Pointer,
            pointer_kind: PointerKind::Mouse,
            drag_id: None,
        }
    }
}

} // verus!
