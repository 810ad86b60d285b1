//! Kanban-style boards: columns of items, and the moves between them.
//!
//! A board model maps each column's zone number to its items, in order.
//! [`apply_move`] trusts the pickup index; [`try_apply_move`] finds the
//! moved item by key and refuses a stale drop without touching the board.

use std::collections::HashMap;
use vstd::prelude::*;
use vstd::std_specs::cmp::PartialEqSpec;

use crate::keys::{is_key_fn, key_for, key_of, keys_equal, same_key};
use crate::text::{decimal, push_decimal};
use crate::types::ZoneId;
use vstd::string::StringExecFns;

verus! {

broadcast use vstd::std_specs::hash::group_hash_axioms;

/// Columns are just zones.
pub type ContainerId = ZoneId;

/// A board model: each column, keyed by its zone number (`ZoneId.0`), holds
/// its items in order.
pub type Board<T> = HashMap<u64, Vec<T>>;

/// A completed cross-container move.
#[derive(Debug, PartialEq)]
#[non_exhaustive]
pub struct MoveEvent<T> {
    pub item: T,
    /// `(column, index)` the item came from.
    pub from: (ContainerId, usize),
    /// Target column, and target index - `None` means "append to the end".
    pub to: (ContainerId, Option<usize>),
}

impl<T: Clone> Clone for MoveEvent<T> {
    /// The item is cloned; the positions are copied.
    fn clone(&self) -> (r: Self)
        ensures
            cloned::<T>(self.item, r.item),
            r.from == self.from,
            r.to == self.to,
    {
        MoveEvent { item: self.item.clone(), from: self.from, to: self.to }
    }
}

/// What a board item carries while dragged: the item, and where it was
/// picked up.
#[derive(Debug, Clone, PartialEq)]
pub struct BoardPayload<T> {
    pub item: T,
    /// Column the item was picked up from.
    pub from: ContainerId,
    /// Index within that column.
    pub index: usize,
}

/// The move a drop on a board target reports: from where the payload was
/// picked up to `column`, appended (`at: None`, a column) or at a slot's
/// index.
pub open spec fn move_of<T>(p: BoardPayload<T>, column: ContainerId, at: Option<usize>) -> MoveEvent<T> {
    MoveEvent { item: p.item, from: (p.from, p.index), to: (column, at) }
}

/// A drop on a column: append the item there.
pub fn column_move<T>(payload: BoardPayload<T>, column: ContainerId) -> (m: MoveEvent<T>)
    ensures
        m == move_of(payload, column, None),
{
    MoveEvent { item: payload.item, from: (payload.from, payload.index), to: (column, None) }
}

/// A drop on an insertion slot: insert at its index, but only when the
/// enclosing column's filter (`accepted`) admitted the payload; a refused
/// drop reports no move.
pub fn slot_move<T>(payload: BoardPayload<T>, column: ContainerId, index: usize, accepted: bool) -> (r:
    Option<MoveEvent<T>>)
    ensures
        r == if accepted {
            Some(move_of(payload, column, Some(index)))
        } else {
            None
        },
{
    if !accepted {
        return None;
    }
    Some(MoveEvent { item: payload.item, from: (payload.from, payload.index), to: (column, Some(index)) })
}

impl<T> MoveEvent<T> {
    /// A move of `item` from `(column, index)` to `(column, index)`, where
    /// a `None` target index means "append to the end".
    pub fn new(item: T, from: (ContainerId, usize), to: (ContainerId, Option<usize>)) -> (m: Self)
        ensures
            m.item == item,
            m.from == from,
            m.to == to,
    {
        MoveEvent { item, from, to }
    }
}

/// The board as columns of item sequences.
pub open spec fn board_view<T>(b: Map<u64, Vec<T>>) -> Map<u64, Seq<T>> {
    Map::new(|k: u64| b.contains_key(k), |k: u64| b[k]@)
}

/// A column's items; a missing column reads as empty.
pub open spec fn column<T>(b: Map<u64, Seq<T>>, k: u64) -> Seq<T> {
    if b.contains_key(k) {
        b[k]
    } else {
        Seq::empty()
    }
}

/// Insert at `at` when it is a valid insertion index, else append.
pub open spec fn place<T>(dst: Seq<T>, at: Option<int>, item: T) -> Seq<T> {
    match at {
        Some(ix) => if 0 <= ix <= dst.len() {
            dst.insert(ix, item)
        } else {
            dst.push(item)
        },
        None => dst.push(item),
    }
}

/// The target index after the source removal: a same-column removal before
/// the target shifts it down by one.
pub open spec fn adjusted_index(
    from: u64,
    removed: Option<int>,
    to: u64,
    to_ix: Option<int>,
) -> Option<int> {
    match (to_ix, removed) {
        (Some(ix), Some(r)) => if from == to && r < ix {
            Some(ix - 1)
        } else {
            Some(ix)
        },
        _ => to_ix,
    }
}

/// Remove the item at `removed` (if any) from column `from`, then place
/// `item` in column `to` at the adjusted target index, creating the target
/// column when missing.
pub open spec fn relocated<T>(
    b: Map<u64, Seq<T>>,
    from: u64,
    removed: Option<int>,
    to: u64,
    to_ix: Option<int>,
    item: T,
) -> Map<u64, Seq<T>> {
    let b1 = match removed {
        Some(r) => b.insert(from, b[from].remove(r)),
        None => b,
    };
    b1.insert(to, place(column(b1, to), adjusted_index(from, removed, to, to_ix), item))
}

/// The index [`apply_move`] removes: the pickup index, when the source
/// column exists and the index is in range.
pub open spec fn trusted_removal<T>(b: Map<u64, Seq<T>>, mv: MoveEvent<T>) -> Option<int> {
    if b.contains_key(mv.from.0.0) && mv.from.1 < b[mv.from.0.0].len() {
        Some(mv.from.1 as int)
    } else {
        None
    }
}

/// The board after [`apply_move`].
pub open spec fn apply_move_spec<T>(b: Map<u64, Seq<T>>, mv: MoveEvent<T>) -> Map<u64, Seq<T>> {
    relocated(b, mv.from.0.0, trusted_removal(b, mv), mv.to.0.0, index_of(mv.to.1), mv.item)
}

/// An optional index as a mathematical integer.
pub open spec fn index_of(ix: Option<usize>) -> Option<int> {
    match ix {
        Some(i) => Some(i as int),
        None => None,
    }
}

/// Take column `k` out of the board (empty when missing).
fn take_column<T>(board: &mut Board<T>, k: u64) -> (v: Vec<T>)
    ensures
        v@ == column(board_view(old(board)@), k),
        final(board)@ == old(board)@.remove(k),
{
    match board.remove(&k) {
        Some(v) => v,
        None => Vec::new(),
    }
}

/// Insert into `dst` at `at` when valid, else append.
fn place_item<T>(dst: &mut Vec<T>, at: Option<usize>, item: T)
    ensures
        final(dst)@ == place(old(dst)@, index_of(at), item),
{
    match at {
        Some(ix) => {
            if ix <= dst.len() {
                dst.insert(ix, item);
            } else {
                dst.push(item);
            }
        },
        None => dst.push(item),
    }
}

/// Removing a column and putting it back changed is one insert.
proof fn lemma_view_insert<T>(old_b: Map<u64, Vec<T>>, k: u64, v: Vec<T>)
    ensures
        board_view(old_b.remove(k).insert(k, v)) == board_view(old_b).insert(k, v@),
{
    assert(board_view(old_b.remove(k).insert(k, v)) =~= board_view(old_b).insert(k, v@));
}

/// Common tail of both move helpers: remove the item at `removed` from the
/// source (the index must be valid), then place the item at the target.
fn relocate<T>(
    board: &mut Board<T>,
    from: u64,
    removed: Option<usize>,
    to: u64,
    to_ix: Option<usize>,
    item: T,
)
    requires
        removed matches Some(r) ==> board_view(old(board)@).contains_key(from) && r < board_view(
            old(board)@,
        )[from].len(),
    ensures
        board_view(final(board)@) == relocated(
            board_view(old(board)@),
            from,
            index_of(removed),
            to,
            index_of(to_ix),
            item,
        ),
{
    let ghost b0 = board_view(board@);
    if let Some(r) = removed {
        let ghost before = board@;
        let mut src = take_column(board, from);
        src.remove(r);
        board.insert(from, src);
        proof {
            lemma_view_insert(before, from, src);
        }
    }
    let ghost b1 = board_view(board@);
    assert(b1 == match index_of(removed) {
        Some(r) => b0.insert(from, b0[from].remove(r)),
        None => b0,
    });
    let adjusted = match to_ix {
        Some(ix) => match removed {
            Some(r) => if from == to && r < ix {
                Some(ix - 1)
            } else {
                Some(ix)
            },
            None => Some(ix),
        },
        None => None,
    };
    assert(index_of(adjusted) == adjusted_index(from, index_of(removed), to, index_of(to_ix)));
    let ghost before = board@;
    let mut dst = take_column(board, to);
    place_item(&mut dst, adjusted, item);
    board.insert(to, dst);
    proof {
        lemma_view_insert(before, to, dst);
    }
}

/// Apply a [`MoveEvent`] to a board model. Removes from the source **by
/// index** and inserts at the target position.
///
/// The index is trusted: if the source column changed between pickup and
/// drop, whichever item now sits at `from.1` is removed and the moved item
/// is still inserted. An out-of-range index or missing column skips the
/// removal, so the item is never lost - but it may be duplicated. A same
/// column forward move inserts one slot earlier, since the removal shifted
/// the items after it. `None` or an index past the end appends, and a
/// missing target column is created.
pub fn apply_move<T>(board: &mut Board<T>, mv: MoveEvent<T>)
    ensures
        board_view(final(board)@) == apply_move_spec(board_view(old(board)@), mv),
{
    let MoveEvent { item, from: (from_col, from_ix), to: (to_col, to_ix) } = mv;
    let removed = match board.get(&from_col.0) {
        Some(src) => if from_ix < src.len() {
            Some(from_ix)
        } else {
            None
        },
        None => None,
    };
    assert(index_of(removed) == trusted_removal(board_view(board@), mv));
    relocate(board, from_col.0, removed, to_col.0, to_ix, item);
}

/// A checked board helper refused to mutate the model.
#[derive(Debug, Clone, Copy, PartialEq, Eq, Structural)]
#[non_exhaustive]
pub enum ApplyMoveError {
    /// No item in the source column matched the moved item's key. The board
    /// was left untouched.
    SourceNotFound { column: ContainerId },
}

/// The text of an [`ApplyMoveError`].
pub open spec fn move_error_text(e: ApplyMoveError) -> Seq<char> {
    match e {
        ApplyMoveError::SourceNotFound { column } => "no item matched the move in column "@
            + decimal(column.0 as nat),
    }
}

impl ApplyMoveError {
    /// The human-readable message, e.g.
    /// `no item matched the move in column 1`.
    pub fn message(&self) -> (s: String)
        ensures
            s@ == move_error_text(*self),
    {
        match self {
            ApplyMoveError::SourceNotFound { column } => {
                let mut s = "no item matched the move in column ".to_owned();
                push_decimal(&mut s, column.0);
                s
            },
        }
    }
}

/// Is `i` the first index of `s` whose item carries the key of `item`?
pub open spec fn is_first_match<T, K: PartialEq, F: Fn(&T) -> K>(
    s: Seq<T>,
    key: F,
    item: T,
    i: int,
) -> bool {
    &&& 0 <= i < s.len()
    &&& same_key(key, s[i], item)
    &&& forall|j: int| 0 <= j < i ==> !same_key(key, #[trigger] s[j], item)
}

/// Does any item of `s` carry the key of `item`?
pub open spec fn has_match<T, K: PartialEq, F: Fn(&T) -> K>(s: Seq<T>, key: F, item: T) -> bool {
    exists|i: int| 0 <= i < s.len() && same_key(key, #[trigger] s[i], item)
}

/// The first index of `s` whose item carries the key of `item`.
pub open spec fn first_match<T, K: PartialEq, F: Fn(&T) -> K>(s: Seq<T>, key: F, item: T) -> int {
    choose|i: int| is_first_match(s, key, item, i)
}

/// When some item matches, the first match exists and is unique.
pub proof fn lemma_first_match<T, K: PartialEq, F: Fn(&T) -> K>(s: Seq<T>, key: F, item: T)
    requires
        has_match(s, key, item),
    ensures
        is_first_match(s, key, item, first_match(s, key, item)),
        forall|i: int| #[trigger] is_first_match(s, key, item, i) ==> i == first_match(s, key, item),
    decreases s.len(),
{
    if same_key(key, s[0], item) {
        assert(is_first_match(s, key, item, 0));
    } else {
        let rest = s.subrange(1, s.len() as int);
        let w = choose|i: int| 0 <= i < s.len() && same_key(key, #[trigger] s[i], item);
        assert(rest[w - 1] == s[w]);
        lemma_first_match(rest, key, item);
        let j = first_match(rest, key, item);
        assert forall|k: int| 0 <= k < j + 1 implies !same_key(key, #[trigger] s[k], item) by {
            if k > 0 {
                assert(s[k] == rest[k - 1]);
            }
        }
        assert(is_first_match(s, key, item, j + 1));
    }
    let f = first_match(s, key, item);
    assert forall|i: int| #[trigger] is_first_match(s, key, item, i) implies i == f by {
        if i < f {
            assert(!same_key(key, s[i], item));
        } else if f < i {
            assert(!same_key(key, s[f], item));
        }
    }
}

/// What [`try_apply_move`] does, as a board: `None` when refused.
pub open spec fn try_apply_move_spec<T, K: PartialEq, F: Fn(&T) -> K>(
    b: Map<u64, Seq<T>>,
    mv: MoveEvent<T>,
    key: F,
) -> Option<Map<u64, Seq<T>>> {
    let from = mv.from.0.0;
    if b.contains_key(from) && has_match(b[from], key, mv.item) {
        Some(
            relocated(
                b,
                from,
                Some(first_match(b[from], key, mv.item)),
                mv.to.0.0,
                index_of(mv.to.1),
                mv.item,
            ),
        )
    } else {
        None
    }
}

/// Checked, identity-based form of [`apply_move`].
///
/// The moved item is located in the source column by `key` and removed from
/// wherever it now sits; `from.1` is not consulted. The same-column forward
/// adjustment uses the index the item was actually found at. When no item
/// in the source column matches (or the column is missing), the board is
/// left untouched and [`ApplyMoveError::SourceNotFound`] is returned.
///
/// Target handling matches `apply_move`: `None` or an index past the end
/// appends, and a missing target column is created.
pub fn try_apply_move<T, K: PartialEq, F: Fn(&T) -> K>(
    board: &mut Board<T>,
    mv: MoveEvent<T>,
    key: F,
) -> (r: Result<(), ApplyMoveError>)
    requires
        is_key_fn(key),
    ensures
        K::obeys_eq_spec() ==> match try_apply_move_spec(board_view(old(board)@), mv, key) {
            Some(after) => r is Ok && board_view(final(board)@) == after,
            None => r == Err::<(), ApplyMoveError>(
                ApplyMoveError::SourceNotFound { column: mv.from.0 },
            ) && final(board)@ == old(board)@,
        },
        r is Err ==> r == Err::<(), ApplyMoveError>(
            ApplyMoveError::SourceNotFound { column: mv.from.0 },
        ) && final(board)@ == old(board)@,
        !board_view(old(board)@).contains_key(mv.from.0.0) ==> r is Err,
{
    let MoveEvent { item, from: (from_col, _), to: (to_col, to_ix) } = mv;
    let ghost b0 = board_view(board@);
    let item_key = key_for(&key, &item);
    let found = match board.get(&from_col.0) {
        None => None,
        Some(src) => {
            let n = src.len();
            let mut i: usize = 0;
            let mut found: Option<usize> = None;
            while i < n
                invariant_except_break
                    found is None,
                    K::obeys_eq_spec() ==> forall|j: int|
                        0 <= j < i ==> !same_key(key, #[trigger] src@[j], item),
                invariant
                    n == src@.len(),
                    i <= n,
                    is_key_fn(key),
                    item_key == key_of(key, item),
                ensures
                    found matches Some(f) ==> f < n,
                    found matches Some(f) ==> K::obeys_eq_spec() ==> is_first_match(
                        src@,
                        key,
                        item,
                        f as int,
                    ),
                    found is None ==> K::obeys_eq_spec() ==> forall|j: int|
                        0 <= j < n ==> !same_key(key, #[trigger] src@[j], item),
                decreases n - i,
            {
                let k = key_for(&key, &src[i]);
                if keys_equal(&k, &item_key) {
                    found = Some(i);
                    break;
                }
                i = i + 1;
            }
            found
        },
    };
    match found {
        None => {
            proof {
                if b0.contains_key(from_col.0) && K::obeys_eq_spec() {
                    assert(!has_match(b0[from_col.0], key, item));
                }
            }
            Err(ApplyMoveError::SourceNotFound { column: from_col })
        },
        Some(ix) => {
            proof {
                if K::obeys_eq_spec() {
                    let s = b0[from_col.0];
                    assert(has_match(s, key, item));
                    lemma_first_match(s, key, item);
                }
            }
            relocate(board, from_col.0, Some(ix), to_col.0, to_ix, item);
            Ok(())
        },
    }
}

/// The shape of any relocation: only the source and target columns change;
/// the source loses exactly the removed item; the target gains the item.
proof fn lemma_relocated_shape<T>(
    b: Map<u64, Seq<T>>,
    from: u64,
    removed: Option<int>,
    to: u64,
    to_ix: Option<int>,
    item: T,
)
    requires
        removed matches Some(r) ==> b.contains_key(from) && 0 <= r < b[from].len(),
    ensures
        ({
            let a = relocated(b, from, removed, to, to_ix, item);
            &&& a.dom() == b.dom().insert(to)
            &&& forall|k: u64| k != from && k != to && b.contains_key(k) ==> #[trigger] a[k] == b[k]
            &&& from != to ==> (removed matches Some(r) ==> a[from] == b[from].remove(r))
            &&& from != to ==> (removed is None && b.contains_key(from) ==> a[from] == b[from])
            &&& a[to].contains(item)
            &&& a[to].len() == column(b, to).len() + 1 - (if from == to && removed is Some {
                1int
            } else {
                0int
            })
        }),
{
    let b1 = match removed {
        Some(r) => b.insert(from, b[from].remove(r)),
        None => b,
    };
    let adj = adjusted_index(from, removed, to, to_ix);
    let dst = column(b1, to);
    let placed = place(dst, adj, item);
    match adj {
        Some(ix) => {
            if 0 <= ix <= dst.len() {
                assert(placed[ix] == item);
            } else {
                assert(placed[dst.len() as int] == item);
            }
        },
        None => {
            assert(placed[dst.len() as int] == item);
        },
    }
    let a = relocated(b, from, removed, to, to_ix, item);
    assert(a.dom() =~= b.dom().insert(to));
}

/// Index-trusting moves never lose the item: after [`apply_move`] the
/// target column exists and holds the item, one longer than before (a
/// same-column move that removed keeps the length), every other column is
/// unchanged, and the source lost exactly what sat at the pickup index.
pub proof fn law_index_move_keeps_item<T>(b: Map<u64, Seq<T>>, mv: MoveEvent<T>)
    ensures
        ({
            let a = apply_move_spec(b, mv);
            let from = mv.from.0.0;
            let to = mv.to.0.0;
            &&& a.contains_key(to)
            &&& a[to].contains(mv.item)
            &&& forall|k: u64| k != from && k != to && b.contains_key(k) ==> #[trigger] a[k] == b[k]
            &&& from != to && b.contains_key(from) && mv.from.1 < b[from].len() ==> a[from]
                == b[from].remove(mv.from.1 as int)
        }),
{
    lemma_relocated_shape(
        b,
        mv.from.0.0,
        trusted_removal(b, mv),
        mv.to.0.0,
        index_of(mv.to.1),
        mv.item,
    );
}

/// A keyed move conserves items: when [`try_apply_move`] succeeds, the
/// source loses exactly one item - the first one carrying the moved item's
/// key - the target holds the moved item, and no other column changes.
/// A cross-column move shrinks the source by one and grows the target by
/// one; a same-column move keeps the column's length.
pub proof fn law_keyed_move_conserves<T, K: PartialEq, F: Fn(&T) -> K>(
    b: Map<u64, Seq<T>>,
    mv: MoveEvent<T>,
    key: F,
)
    ensures
        try_apply_move_spec(b, mv, key) matches Some(a) ==> {
            let from = mv.from.0.0;
            let to = mv.to.0.0;
            let i = first_match(b[from], key, mv.item);
            &&& is_first_match(b[from], key, mv.item, i)
            &&& a[to].contains(mv.item)
            &&& forall|k: u64| k != from && k != to && b.contains_key(k) ==> #[trigger] a[k] == b[k]
            &&& from != to ==> a[from] == b[from].remove(i) && a[from].len() + 1 == b[from].len()
                && a[to].len() == column(b, to).len() + 1
            &&& from == to ==> a[to].len() == b[from].len()
        },
{
    let from = mv.from.0.0;
    if b.contains_key(from) && has_match(b[from], key, mv.item) {
        lemma_first_match(b[from], key, mv.item);
        let i = first_match(b[from], key, mv.item);
        lemma_relocated_shape(b, from, Some(i), mv.to.0.0, index_of(mv.to.1), mv.item);
    }
}

/// A targeted keyed move lands where it was aimed: the item ends up
/// immediately before the item that occupied the target slot at drop time
/// (in a same-column move, the removal before a forward target is taken
/// into account). This holds whenever the target slot held an item other
/// than the moved one.
pub proof fn law_keyed_move_lands_before_occupant<T, K: PartialEq, F: Fn(&T) -> K>(
    b: Map<u64, Seq<T>>,
    mv: MoveEvent<T>,
    key: F,
    ix: usize,
)
    requires
        mv.to.1 == Some(ix),
        ix < column(b, mv.to.0.0).len(),
        b.contains_key(mv.from.0.0),
        has_match(b[mv.from.0.0], key, mv.item),
        mv.from.0 == mv.to.0 ==> ix != first_match(b[mv.from.0.0], key, mv.item),
    ensures
        try_apply_move_spec(b, mv, key) matches Some(a) && {
            let to = mv.to.0.0;
            let p = adjusted_index(
                mv.from.0.0,
                Some(first_match(b[mv.from.0.0], key, mv.item)),
                to,
                index_of(mv.to.1),
            )->Some_0;
            &&& a[to][p] == mv.item
            &&& a[to][p + 1] == column(b, to)[ix as int]
        },
{
    let from = mv.from.0.0;
    let to = mv.to.0.0;
    lemma_first_match(b[from], key, mv.item);
    let i = first_match(b[from], key, mv.item);
    let a = relocated(b, from, Some(i), to, index_of(mv.to.1), mv.item);
    if from == to {
        let s1 = b[from].remove(i);
        if i < ix {
            assert(s1[ix - 1] == b[from][ix as int]);
        } else {
            assert(s1[ix as int] == b[from][ix as int]);
        }
    }
}

} // verus!
