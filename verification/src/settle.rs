//! The drop-settle glide's bookkeeping: which overlay holds the settle
//! capability, and which glide generation an overlay may still animate.

use vstd::prelude::*;
use vstd::string::StringExecFns;

use crate::text::{decimal, push_decimal};

verus! {

/// Marker that a settle-enabled overlay is mounted in this provider's
/// subtree, owned by one capability at a time: successful pointer drops
/// should then settle instead of vanishing.
#[derive(Debug, Clone, Copy, PartialEq, Eq, Structural)]
pub struct SettleFlag {
    armed: Option<u64>,
}

impl SettleFlag {
    /// The capability currently holding the flag.
    pub closed spec fn holder(self) -> Option<u64> {
        self.armed
    }

    /// A disarmed flag.
    pub fn new() -> (f: Self)
        ensures
            f.holder() is None,
    {
        SettleFlag { armed: None }
    }

    /// Arm the flag for `capability` (taking it over from any holder).
    pub fn arm(&mut self, capability: u64)
        ensures
            final(self).holder() == Some(capability),
    {
        self.armed = Some(capability);
    }

    /// Is any overlay holding the flag?
    pub fn is_armed(&self) -> (b: bool)
        ensures
            b == (self.holder() is Some),
    {
        self.armed.is_some()
    }

    /// Retire `capability` only if it still holds the flag; returns whether
    /// it did (a superseded overlay's teardown must not disarm its
    /// successor).
    pub fn release(&mut self, capability: u64) -> (released: bool)
        ensures
            released == (old(self).holder() == Some(capability)),
            final(self).holder() == if released {
                None
            } else {
                old(self).holder()
            },
    {
        match self.armed {
            Some(c) => {
                if c == capability {
                    self.armed = None;
                    true
                } else {
                    false
                }
            },
            None => false,
        }
    }
}

/// A settle glide in progress: the generation it belongs to and the offset
/// the ghost travels.
#[derive(Debug, Clone, Copy, PartialEq)]
pub struct SettleGlide<D> {
    pub generation: u64,
    pub delta: D,
}

/// The glide to render for `generation`: only a glide recorded for that
/// very generation; a stale glide is never relabelled as its successor.
pub fn glide_for_generation<D>(glide: Option<SettleGlide<D>>, generation: Option<u64>) -> (r:
    Option<SettleGlide<D>>)
    ensures
        r == if glide matches Some(g) && generation == Some(g.generation) {
            glide
        } else {
            None
        },
{
    match glide {
        Some(g) => match generation {
            Some(n) => if g.generation == n {
                Some(g)
            } else {
                None
            },
            None => None,
        },
        None => None,
    }
}

/// The generation an overlay's teardown should retire: the live one while
/// the overlay still holds the capability, else the one it owned.
pub fn cleanup_generation(still_armed: bool, owned: Option<u64>, live: Option<u64>) -> (r: Option<
    u64,
>)
    ensures
        r == if still_armed && live is Some {
            live
        } else {
            owned
        },
{
    if still_armed {
        match live {
            Some(l) => Some(l),
            None => owned,
        }
    } else {
        owned
    }
}

/// The render key of an overlay: `"drag"` while dragging, `"settle-N"`
/// for settle generation `N`.
pub open spec fn generation_key(generation: Option<u64>) -> Seq<char> {
    match generation {
        Some(n) => "settle-"@ + decimal(n as nat),
        None => "drag"@,
    }
}

/// The overlay's render key, distinct per settle generation so a stale
/// glide's element is never reused for its successor.
pub fn overlay_generation_key(generation: Option<u64>) -> (s: String)
    ensures
        s@ == generation_key(generation),
{
    match generation {
        Some(n) => {
            let mut s = "settle-".to_owned();
            push_decimal(&mut s, n);
            s
        },
        None => "drag".to_owned(),
    }
}

/// Decimal renderings of different numbers differ.
pub proof fn lemma_decimal_injective(a: nat, b: nat)
    requires
        a != b,
    ensures
        decimal(a) != decimal(b),
    decreases a + b,
{
    reveal_with_fuel(decimal, 2);
    if a < 10 && b < 10 {
        assert(decimal(a)[0] != decimal(b)[0]);
    } else if a < 10 {
        lemma_decimal_len(b / 10);
        assert(decimal(b).len() >= 2);
    } else if b < 10 {
        lemma_decimal_len(a / 10);
        assert(decimal(a).len() >= 2);
    } else if a % 10 != b % 10 {
        assert(decimal(a).last() != decimal(b).last());
    } else {
        lemma_decimal_injective(a / 10, b / 10);
        if decimal(a) == decimal(b) {
            assert(decimal(a / 10) =~= decimal(a).drop_last());
            assert(decimal(b / 10) =~= decimal(b).drop_last());
        }
    }
}

/// A decimal rendering is never empty.
pub proof fn lemma_decimal_len(n: nat)
    ensures
        decimal(n).len() >= 1,
    decreases n,
{
    if n >= 10 {
        lemma_decimal_len(n / 10);
    }
}

/// Render keys never collide: different settle generations get different
/// keys, and no settle key equals the dragging key.
pub proof fn law_generation_keys_are_distinct(a: u64, b: u64)
    ensures
        a != b ==> generation_key(Some(a)) != generation_key(Some(b)),
        generation_key(Some(a)) != generation_key(None),
{
    reveal_strlit("settle-");
    reveal_strlit("drag");
    if a != b {
        lemma_decimal_injective(a as nat, b as nat);
        if generation_key(Some(a)) == generation_key(Some(b)) {
            assert(decimal(a as nat) =~= generation_key(Some(a)).subrange(7, generation_key(Some(a)).len() as int));
            assert(decimal(b as nat) =~= generation_key(Some(b)).subrange(7, generation_key(Some(b)).len() as int));
        }
    }
    assert(generation_key(Some(a))[0] == 's');
    assert(generation_key(None)[0] == 'd');
}

} // verus!
