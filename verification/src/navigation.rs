//! Keyboard navigation between drop zones: which arrow means which
//! hierarchical move, and cyclic stepping through an ordered set of zones.

use vstd::prelude::*;

use crate::types::{Direction, ZoneId};

verus! {

/// The keys keyboard navigation reads.
#[derive(Debug, Clone, Copy, PartialEq, Eq, Structural)]
pub enum NavInput {
    ArrowUp,
    ArrowDown,
    ArrowLeft,
    ArrowRight,
    /// Any other key.
    Other,
}

/// Which hierarchical move an arrow key requested.
#[derive(Debug, Clone, Copy, PartialEq, Eq, Structural)]
pub enum NavKey {
    /// The next sibling zone.
    Next,
    /// The previous sibling zone.
    Prev,
    /// Into the first child zone.
    Descend,
    /// Out to the parent zone.
    Ascend,
}

/// The move each key requests: vertical arrows step between siblings; the
/// arrow pointing along reading order descends, the other ascends.
pub open spec fn nav_key_spec(key: NavInput, dir: Direction) -> Option<NavKey> {
    match key {
        NavInput::ArrowDown => Some(NavKey::Next),
        NavInput::ArrowUp => Some(NavKey::Prev),
        NavInput::ArrowRight => if dir == Direction::Ltr {
            Some(NavKey::Descend)
        } else {
            Some(NavKey::Ascend)
        },
        NavInput::ArrowLeft => if dir == Direction::Ltr {
            Some(NavKey::Ascend)
        } else {
            Some(NavKey::Descend)
        },
        NavInput::Other => None,
    }
}

/// Map an arrow key to a hierarchical move, honoring layout direction:
/// horizontal arrows mirror under RTL (the WAI-ARIA tree convention), so
/// "into" is always the arrow pointing along reading order. Vertical
/// arrows never mirror; other keys request nothing.
pub fn nav_key(key: NavInput, dir: Direction) -> (r: Option<NavKey>)
    ensures
        r == nav_key_spec(key, dir),
{
    match (key, dir) {
        (NavInput::ArrowDown, _) => Some(NavKey::Next),
        (NavInput::ArrowUp, _) => Some(NavKey::Prev),
        (NavInput::ArrowRight, Direction::Ltr) | (NavInput::ArrowLeft, Direction::Rtl) => Some(
            NavKey::Descend,
        ),
        (NavInput::ArrowLeft, Direction::Ltr) | (NavInput::ArrowRight, Direction::Rtl) => Some(
            NavKey::Ascend,
        ),
        _ => None,
    }
}

/// Mirroring law: under RTL the horizontal arrows swap meanings and the
/// vertical ones keep theirs.
pub proof fn law_rtl_mirrors_horizontal_arrows()
    ensures
        nav_key_spec(NavInput::ArrowRight, Direction::Rtl) == nav_key_spec(
            NavInput::ArrowLeft,
            Direction::Ltr,
        ),
        nav_key_spec(NavInput::ArrowLeft, Direction::Rtl) == nav_key_spec(
            NavInput::ArrowRight,
            Direction::Ltr,
        ),
        nav_key_spec(NavInput::ArrowUp, Direction::Rtl) == nav_key_spec(
            NavInput::ArrowUp,
            Direction::Ltr,
        ),
        nav_key_spec(NavInput::ArrowDown, Direction::Rtl) == nav_key_spec(
            NavInput::ArrowDown,
            Direction::Ltr,
        ),
{
}

/// Where cyclic stepping lands: with no current position, the first
/// element going forward and the last going backward; otherwise
/// `current + step`, wrapped (Euclidean remainder).
pub open spec fn cycle_spec(len: nat, current: Option<nat>, step: int) -> Option<nat> {
    if len == 0 {
        None
    } else {
        match current {
            None => if step >= 0 {
                Some(0)
            } else {
                Some((len - 1) as nat)
            },
            Some(ix) => Some(((ix + step) % (len as int)) as nat),
        }
    }
}

/// An optional index as a natural number.
pub open spec fn opt_nat(o: Option<usize>) -> Option<nat> {
    match o {
        Some(i) => Some(i as nat),
        None => None,
    }
}

/// Cyclic index stepping: `None` current starts at the first (or last)
/// element depending on direction; otherwise the step wraps around.
pub fn cycle(len: usize, current: Option<usize>, step: isize) -> (r: Option<usize>)
    ensures
        opt_nat(r) == cycle_spec(len as nat, opt_nat(current), step as int),
        r matches Some(i) ==> i < len,
{
    if len == 0 {
        return None;
    }
    match current {
        None => if step >= 0 {
            Some(0)
        } else {
            Some(len - 1)
        },
        Some(ix) => {
            let l: i128 = len as i128;
            let t: i128 = ix as i128 + step as i128;
            if t >= 0 {
                let e = t % l;
                Some(e as usize)
            } else {
                let n: i128 = -t - 1;
                let q: i128 = n % l;
                let e: i128 = l - 1 - q;
                proof {
                    let k = n / l;
                    vstd::arithmetic::div_mod::lemma_fundamental_div_mod(n as int, l as int);
                    assert(t == (-(k + 1)) * l + e) by (nonlinear_arith)
                        requires
                            n == l * k + q,
                            t == -n - 1,
                            e == l - 1 - q,
                    ;
                    vstd::arithmetic::div_mod::lemma_fundamental_div_mod_converse(
                        t as int,
                        l as int,
                        -(k + 1),
                        e as int,
                    );
                }
                Some(e as usize)
            }
        },
    }
}

/// Is `i` the first position of `z` in `s`?
pub open spec fn is_first_at(s: Seq<ZoneId>, z: ZoneId, i: int) -> bool {
    &&& 0 <= i < s.len()
    &&& s[i] == z
    &&& forall|j: int| 0 <= j < i ==> #[trigger] s[j] != z
}

/// The first position of `current` in `s`, if it occurs.
pub open spec fn position_of(s: Seq<ZoneId>, current: Option<ZoneId>) -> Option<nat> {
    match current {
        Some(z) => if exists|i: int| is_first_at(s, z, i) {
            Some((choose|i: int| is_first_at(s, z, i)) as nat)
        } else {
            None
        },
        None => None,
    }
}

/// The zone [`step_in`] lands on.
pub open spec fn stepped(s: Seq<ZoneId>, current: Option<ZoneId>, step: int) -> Option<ZoneId> {
    match cycle_spec(s.len(), position_of(s, current), step) {
        Some(i) => Some(s[i as int]),
        None => None,
    }
}

/// The zone after (or before, for a negative `step`) `current` in `zones`,
/// cyclically. An unknown or missing current starts from the first zone
/// going forward and the last going backward.
pub fn step_in(zones: &[ZoneId], current: Option<ZoneId>, step: isize) -> (r: Option<ZoneId>)
    ensures
        r == stepped(zones@, current, step as int),
{
    let mut at: Option<usize> = None;
    if let Some(c) = current {
        let mut i: usize = 0;
        while i < zones.len()
            invariant_except_break
                at is None,
            invariant
                i <= zones@.len(),
                forall|j: int| 0 <= j < i ==> #[trigger] zones@[j] != c,
            ensures
                at matches Some(k) ==> is_first_at(zones@, c, k as int),
                at is None ==> forall|j: int| 0 <= j < zones@.len() ==> #[trigger] zones@[j] != c,
            decreases zones@.len() - i,
        {
            if zones[i] == c {
                at = Some(i);
                break;
            }
            i = i + 1;
        }
        proof {
            match at {
                Some(k) => {
                    assert(is_first_at(zones@, c, k as int));
                    let w = choose|i: int| is_first_at(zones@, c, i);
                    assert(w == k as int) by {
                        if w < k {
                            assert(zones@[w] != c);
                        } else if w > k {
                            assert(zones@[k as int] != c);
                        }
                    }
                },
                None => {
                    assert(!exists|i: int| is_first_at(zones@, c, i));
                },
            }
        }
    }
    assert(opt_nat(at) == position_of(zones@, current));
    match cycle(zones.len(), at, step) {
        Some(ix) => Some(zones[ix]),
        None => None,
    }
}

/// Stepping lands on a member of the list (when it is non-empty), and a
/// full forward step followed by a backward step returns to a zone's own
/// position.
pub proof fn law_step_stays_in_list_and_reverses(s: Seq<ZoneId>, i: nat)
    requires
        i < s.len(),
    ensures
        cycle_spec(s.len(), Some(i), 1) matches Some(j) && j < s.len() && cycle_spec(
            s.len(),
            Some(j),
            -1,
        ) == Some(i),
        cycle_spec(s.len(), Some(i), -1) matches Some(j) && j < s.len() && cycle_spec(
            s.len(),
            Some(j),
            1,
        ) == Some(i),
{
    let n = s.len() as int;
    if i + 1 < n {
        vstd::arithmetic::div_mod::lemma_fundamental_div_mod_converse(i + 1int, n, 0, i + 1int);
        vstd::arithmetic::div_mod::lemma_fundamental_div_mod_converse(i as int, n, 0, i as int);
    } else {
        vstd::arithmetic::div_mod::lemma_fundamental_div_mod_converse(i + 1int, n, 1, 0);
        vstd::arithmetic::div_mod::lemma_fundamental_div_mod_converse(-1, n, -1, n - 1);
    }
    if i >= 1 {
        vstd::arithmetic::div_mod::lemma_fundamental_div_mod_converse(i - 1, n, 0, i - 1);
        vstd::arithmetic::div_mod::lemma_fundamental_div_mod_converse(i as int, n, 0, i as int);
    } else {
        vstd::arithmetic::div_mod::lemma_fundamental_div_mod_converse(-1, n, -1, n - 1);
        vstd::arithmetic::div_mod::lemma_fundamental_div_mod_converse(n, n, 1, 0);
    }
}

} // verus!
