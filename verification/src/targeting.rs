//! Choosing a drop target: each zone's acceptance of a drop query, and the
//! first acceptable zone among those the collision strategy ranked.
//!
//! Acceptance filters are the application's callbacks; they run lazily and
//! at most once per negotiation. The collision ranking measures geometry
//! and is the host's; what is chosen from it is decided here.

use vstd::prelude::*;

use crate::effects::DropEffects;
use crate::types::{DragMode, DropEffect, EdgeSet, ZoneId};

verus! {

/// The effect a zone grants a query: none when the query proposes no
/// effect, when the zone's payload filter refuses (`accepted`), or when its
/// query filter refuses (`query_ok`); otherwise its allowed effects
/// negotiate the proposal.
pub open spec fn granted(
    proposed: DropEffect,
    accepted: bool,
    query_ok: bool,
    allowed: DropEffects,
) -> Option<DropEffect> {
    if proposed == DropEffect::Disabled || !accepted || !query_ok {
        None
    } else {
        allowed.negotiated(proposed)
    }
}

/// Negotiate one zone against a query proposing `proposed`. The payload
/// filter runs only when an effect is proposed, and the query filter only
/// after the payload filter accepted; a zone without a filter accepts.
pub fn negotiate_zone<A: FnOnce() -> bool, Q: FnOnce() -> bool>(
    proposed: DropEffect,
    accepts_payload: Option<A>,
    accepts_query: Option<Q>,
    allowed: DropEffects,
) -> (r: Option<DropEffect>)
    requires
        accepts_payload matches Some(f) ==> call_requires(f, ()),
        accepts_query matches Some(f) ==> call_requires(f, ()),
    ensures
        exists|accepted: bool, query_ok: bool|
            #![trigger granted(proposed, accepted, query_ok, allowed)]
            {
                &&& r == granted(proposed, accepted, query_ok, allowed)
                &&& accepts_payload is None ==> accepted
                &&& accepts_query is None ==> query_ok
                &&& (proposed != DropEffect::Disabled && accepts_payload is Some) ==> call_ensures(
                    accepts_payload->Some_0,
                    (),
                    accepted,
                )
                &&& (proposed != DropEffect::Disabled && accepted && accepts_query is Some)
                    ==> call_ensures(accepts_query->Some_0, (), query_ok)
            },
{
    if proposed == DropEffect::Disabled {
        assert(granted(proposed, true, true, allowed) is None);
        return None;
    }
    let accepted = match accepts_payload {
        Some(f) => f(),
        None => true,
    };
    if !accepted {
        proof {
            assert(granted(proposed, accepted, true, allowed) is None);
        }
        return None;
    }
    let query_ok = match accepts_query {
        Some(f) => f(),
        None => true,
    };
    if !query_ok {
        proof {
            assert(granted(proposed, accepted, query_ok, allowed) is None);
        }
        return None;
    }
    let r = allowed.negotiate(proposed);
    proof {
        assert(r == granted(proposed, accepted, query_ok, allowed));
    }
    r
}

/// Some entry of `accepted` is for zone `z`.
pub open spec fn has_zone(accepted: Seq<(ZoneId, DropEffect)>, z: ZoneId) -> bool {
    exists|j: int| 0 <= j < accepted.len() && (#[trigger] accepted[j]).0 == z
}

/// `accepted[j]` is the first entry for zone `z`.
pub open spec fn first_entry_at(accepted: Seq<(ZoneId, DropEffect)>, z: ZoneId, j: int) -> bool {
    &&& 0 <= j < accepted.len()
    &&& accepted[j].0 == z
    &&& forall|k: int| 0 <= k < j ==> (#[trigger] accepted[k]).0 != z
}

/// `ranked[i]` is the best-ranked zone that has an acceptable entry.
pub open spec fn first_ranked_at(
    ranked: Seq<ZoneId>,
    accepted: Seq<(ZoneId, DropEffect)>,
    i: int,
) -> bool {
    &&& 0 <= i < ranked.len()
    &&& has_zone(accepted, ranked[i])
    &&& forall|k: int| 0 <= k < i ==> !has_zone(accepted, #[trigger] ranked[k])
}

/// The target among `accepted` (zones with the effect each negotiated):
/// the best-ranked zone of `ranked` that is acceptable, with its effect.
/// `None` when no ranked zone is acceptable.
pub fn first_accepted(ranked: &[ZoneId], accepted: &[(ZoneId, DropEffect)]) -> (r: Option<
    (ZoneId, DropEffect),
>)
    ensures
        r is None <==> forall|i: int| 0 <= i < ranked@.len() ==> !has_zone(accepted@, #[trigger] ranked@[i]),
        r matches Some(e) ==> exists|i: int, j: int|
            first_ranked_at(ranked@, accepted@, i) && first_entry_at(accepted@, ranked@[i], j) && e
                == accepted@[j],
{
    let mut i: usize = 0;
    while i < ranked.len()
        invariant
            i <= ranked@.len(),
            forall|k: int| 0 <= k < i ==> !has_zone(accepted@, #[trigger] ranked@[k]),
        decreases ranked@.len() - i,
    {
        let z = ranked[i];
        let mut j: usize = 0;
        while j < accepted.len()
            invariant
                i < ranked@.len(),
                z == ranked@[i as int],
                forall|k: int| 0 <= k < i ==> !has_zone(accepted@, #[trigger] ranked@[k]),
                j <= accepted@.len(),
                forall|k: int| 0 <= k < j ==> (#[trigger] accepted@[k]).0 != z,
            decreases accepted@.len() - j,
        {
            if accepted[j].0 == z {
                proof {
                    assert(has_zone(accepted@, z));
                    assert(first_entry_at(accepted@, z, j as int));
                    assert(first_ranked_at(ranked@, accepted@, i as int));
                }
                return Some(accepted[j]);
            }
            j = j + 1;
        }
        proof {
            assert forall|k: int| 0 <= k < i + 1 implies !has_zone(accepted@, #[trigger] ranked@[k]) by {
                if k == i {
                    if has_zone(accepted@, ranked@[k]) {
                        let w = choose|w: int| 0 <= w < accepted@.len() && (#[trigger] accepted@[w]).0 == ranked@[k];
                        assert(accepted@[w].0 != z);
                    }
                }
            }
        }
        i = i + 1;
    }
    None
}

/// Live hover with optional stickiness. An exact collision always wins.
/// On an exact miss, a sticky policy may keep only the currently hovered
/// zone, and only when `retain` (the host's check that the zone still
/// negotiates and the pointer is within its recovery radius) grants it an
/// effect; `retain` runs at most once, and only then.
pub fn sticky_hover<G: FnOnce(ZoneId) -> Option<DropEffect>>(
    exact: Option<(ZoneId, DropEffect)>,
    sticky: bool,
    current: Option<ZoneId>,
    retain: G,
) -> (r: Option<(ZoneId, DropEffect)>)
    requires
        current matches Some(c) ==> call_requires(retain, (c,)),
    ensures
        exact is Some ==> r == exact,
        exact is None && (!sticky || current is None) ==> r is None,
        exact is None && sticky && current is Some ==> exists|granted: Option<DropEffect>|
            call_ensures(retain, (current->Some_0,), granted) && r == match granted {
                Some(e) => Some((current->Some_0, e)),
                None => None,
            },
{
    if exact.is_some() {
        return exact;
    }
    if !sticky {
        return None;
    }
    match current {
        Some(c) => match retain(c) {
            Some(e) => Some((c, e)),
            None => None,
        },
        None => None,
    }
}

/// How a drop zone presents itself during a drag.
#[derive(Debug, Clone, Copy, PartialEq, Eq, Structural)]
pub struct ZoneMarks {
    /// `data-active`: a drag is in flight that this zone would accept.
    pub active: bool,
    /// `data-over`: the accepted drag hovers this zone.
    pub over: bool,
    /// `data-edge`: the edges among which the host measures the nearest
    /// one, when it is shown at all.
    pub edge: Option<EdgeSet>,
}

/// A zone's marks: active while an acceptable drag is in flight, over
/// while such a drag hovers it, and an edge only for an acceptable pointer
/// drag hovering a zone that opted in.
pub fn zone_marks(
    dragging: bool,
    acceptable: bool,
    is_over: bool,
    mode: DragMode,
    edges: Option<EdgeSet>,
) -> (m: ZoneMarks)
    ensures
        m.active == (dragging && acceptable),
        m.over == (is_over && acceptable),
        m.edge == if is_over && acceptable && mode == DragMode::Pointer {
            edges
        } else {
            None
        },
{
    let edge = if is_over && acceptable && mode == DragMode::Pointer {
        edges
    } else {
        None
    };
    ZoneMarks { active: dragging && acceptable, over: is_over && acceptable, edge }
}

} // verus!
