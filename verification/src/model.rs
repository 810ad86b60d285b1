//! Applying completed drops to plain collection models.
//!
//! `Move` removes every item whose key equals the payload's key from the
//! source before appending the payload to the target; `Copy` leaves the
//! source alone and appends a fresh copy made by the caller's `clone_item`.

use vstd::prelude::*;
use vstd::std_specs::cmp::PartialEqSpec;

use crate::board::{board_view, column, Board};
use crate::keys::{is_key_fn, key_for, key_of, keys_equal, same_key};
use crate::types::{DropEffect, DropOutcome, ZoneId};

verus! {

broadcast use vstd::std_specs::hash::group_hash_axioms;

/// `s` without the items carrying the key of `payload`, order kept.
pub open spec fn without_key<T, K: PartialEq, F: Fn(&T) -> K>(s: Seq<T>, key: F, payload: T) -> Seq<
    T,
> {
    s.filter(|x: T| !same_key(key, x, payload))
}

/// The zones after pruning `payload`'s key from the source zone (when there
/// is a source and it is known).
pub open spec fn pruned<T, K: PartialEq, F: Fn(&T) -> K>(
    b: Map<u64, Seq<T>>,
    from: Option<ZoneId>,
    key: F,
    payload: T,
) -> Map<u64, Seq<T>> {
    match from {
        Some(f) => if b.contains_key(f.0) {
            b.insert(f.0, without_key(b[f.0], key, payload))
        } else {
            b
        },
        None => b,
    }
}

/// The zones after appending `item` to zone `to` (created when missing).
pub open spec fn appended<T>(b: Map<u64, Seq<T>>, to: ZoneId, item: T) -> Map<u64, Seq<T>> {
    b.insert(to.0, column(b, to.0).push(item))
}

/// Remove from `v` every item whose key equals `payload_key`.
fn retain_other_keys<T, K: PartialEq, F: Fn(&T) -> K>(
    v: Vec<T>,
    key: &F,
    payload: &T,
    payload_key: &K,
) -> (kept: Vec<T>)
    requires
        is_key_fn(*key),
        *payload_key == key_of(*key, *payload),
    ensures
        K::obeys_eq_spec() ==> kept@ == without_key(v@, *key, *payload),
{
    let ghost pred = |x: T| !same_key(*key, x, *payload);
    let ghost all = v@;
    let mut kept: Vec<T> = Vec::new();
    for x in it: v.into_iter()
        invariant
            is_key_fn(*key),
            *payload_key == key_of(*key, *payload),
            it.seq() == all,
            pred == (|x: T| !same_key(*key, x, *payload)),
            K::obeys_eq_spec() ==> kept@ == all.take(it.index() as int).filter(pred),
    {
        let k = key_for(key, &x);
        let same = keys_equal(&k, payload_key);
        proof {
            assert(x == all[it.index() as int]);
            assert(all.take(it.index() + 1 as int) =~= all.take(it.index() as int).push(x));
            all.take(it.index() as int).lemma_filter_push(x, pred);
            assert(K::obeys_eq_spec() ==> pred(x) == !same);
        }
        if !same {
            kept.push(x);
        }
    }
    assert(all.take(all.len() as int) =~= all);
    kept
}

/// Apply a drop to a zone model keyed by zone number.
///
/// `Move` removes the matching items from `outcome.from` before appending
/// the payload to `outcome.to`. `Copy` leaves the source alone and passes
/// the payload through `clone_item` first, which is where you should assign
/// a fresh id.
///
/// - Removal matches **every** item in the source whose key equals the
///   payload's key.
/// - A `Move` where `from == Some(to)` removes and re-appends, so dropping
///   an item back onto its own zone sends it to the end of that list.
/// - A `Move` with `from: None` skips removal and just appends.
/// - An unknown `to` zone is created rather than dropping the item.
pub fn apply_clone_or_move<T, P, K: PartialEq, F: Fn(&T) -> K, C: FnOnce(T) -> T>(
    zones: &mut Board<T>,
    outcome: DropOutcome<T, P>,
    key: F,
    clone_item: C,
)
    requires
        is_key_fn(key),
        outcome.effect == DropEffect::Copy ==> clone_item.requires((outcome.payload,)),
    ensures
        outcome.effect == DropEffect::Copy ==> exists|c: T|
            #[trigger] clone_item.ensures((outcome.payload,), c) && board_view(final(zones)@)
                == appended(board_view(old(zones)@), outcome.to, c),
        outcome.effect != DropEffect::Copy && K::obeys_eq_spec() ==> board_view(final(zones)@)
            == appended(
            pruned(board_view(old(zones)@), outcome.from, key, outcome.payload),
            outcome.to,
            outcome.payload,
        ),
{
    let DropOutcome { payload, from, to, effect, .. } = outcome;
    let ghost b0 = board_view(zones@);
    let item = if effect == DropEffect::Copy {
        clone_item(payload)
    } else {
        if let Some(from) = from {
            let payload_key = key_for(&key, &payload);
            if let Some(source) = zones.remove(&from.0) {
                let kept = retain_other_keys(source, &key, &payload, &payload_key);
                zones.insert(from.0, kept);
                proof {
                    if K::obeys_eq_spec() {
                        assert(board_view(zones@) =~= pruned(b0, Some(from), key, payload));
                    }
                }
            } else {
                assert(board_view(zones@) =~= pruned(b0, Some(from), key, payload));
            }
        }
        payload
    };
    let ghost b1 = board_view(zones@);
    let mut target = match zones.remove(&to.0) {
        Some(v) => v,
        None => Vec::new(),
    };
    target.push(item);
    zones.insert(to.0, target);
    assert(board_view(zones@) =~= appended(b1, to, item));
}

/// Apply a drop between two plain lists.
///
/// `Move` removes the matching items from `source` before appending the
/// payload to `target`. `Copy` leaves the source alone and passes the
/// payload through `clone_item` first. The outcome's `from` and `to` are
/// ignored here; pass `None` for `source` when the payload came from outside
/// any list. Removal matches every item whose key equals the payload's key.
pub fn apply_list_clone_or_move<T, P, K: PartialEq, F: Fn(&T) -> K, C: FnOnce(T) -> T>(
    source: Option<&mut Vec<T>>,
    target: &mut Vec<T>,
    outcome: DropOutcome<T, P>,
    key: F,
    clone_item: C,
)
    requires
        is_key_fn(key),
        outcome.effect == DropEffect::Copy ==> clone_item.requires((outcome.payload,)),
    ensures
        outcome.effect == DropEffect::Copy ==> exists|c: T|
            #[trigger] clone_item.ensures((outcome.payload,), c) && final(target)@ == old(
                target,
            )@.push(c),
        outcome.effect != DropEffect::Copy ==> final(target)@ == old(target)@.push(
            outcome.payload,
        ),
        source matches Some(s) ==> outcome.effect == DropEffect::Copy ==> final(s)@ == s@,
        source matches Some(s) ==> outcome.effect != DropEffect::Copy && K::obeys_eq_spec()
            ==> final(s)@ == without_key(s@, key, outcome.payload),
{
    let DropOutcome { payload, effect, .. } = outcome;
    let item = if effect == DropEffect::Copy {
        clone_item(payload)
    } else {
        if let Some(source) = source {
            let payload_key = key_for(&key, &payload);
            let mut taken: Vec<T> = Vec::new();
            std::mem::swap(&mut taken, source);
            let kept = retain_other_keys(taken, &key, &payload, &payload_key);
            *source = kept;
        }
        payload
    };
    target.push(item);
}

/// A `Move` leaves the source free of the payload's key: every item of
/// the source that carried it is gone, every other item stays (in order),
/// the target ends with the payload, and no other zone changes. Dropping
/// back onto the source zone sends the item to the end of that list.
pub proof fn law_move_prunes_source<T, K: PartialEq, F: Fn(&T) -> K>(
    b: Map<u64, Seq<T>>,
    from: ZoneId,
    to: ZoneId,
    key: F,
    payload: T,
)
    ensures
        ({
            let a = appended(pruned(b, Some(from), key, payload), to, payload);
            &&& a[to.0].last() == payload
            &&& forall|k: u64| k != from.0 && k != to.0 && b.contains_key(k) ==> #[trigger] a[k] == b[k]
            &&& b.contains_key(from.0) && from != to ==> {
                &&& a[from.0] == without_key(b[from.0], key, payload)
                &&& forall|i: int|
                    0 <= i < a[from.0].len() ==> !same_key(key, #[trigger] a[from.0][i], payload)
            }
            &&& b.contains_key(from.0) && from == to ==> a[to.0] == without_key(
                b[from.0],
                key,
                payload,
            ).push(payload)
        }),
{
    broadcast use vstd::seq_lib::group_filter_ensures;

    if b.contains_key(from.0) && from != to {
        let a = appended(pruned(b, Some(from), key, payload), to, payload);
        let pred = |x: T| !same_key(key, x, payload);
        assert forall|i: int| 0 <= i < a[from.0].len() implies !same_key(
            key,
            #[trigger] a[from.0][i],
            payload,
        ) by {
            assert(pred(b[from.0].filter(pred)[i]));
        }
    }
}

/// A `Copy` never touches the source: only the target zone changes, and it
/// gains exactly one item at its end.
pub proof fn law_copy_keeps_source<T>(b: Map<u64, Seq<T>>, to: ZoneId, copy: T)
    ensures
        ({
            let a = appended(b, to, copy);
            &&& a[to.0] == column(b, to.0).push(copy)
            &&& forall|k: u64| k != to.0 && b.contains_key(k) ==> #[trigger] a[k] == b[k]
            &&& a.dom() == b.dom().insert(to.0)
        }),
{
    assert(appended(b, to, copy).dom() =~= b.dom().insert(to.0));
}

} // verus!
