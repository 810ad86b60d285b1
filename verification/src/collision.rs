//! Collision strategies: how a drag's target is ranked among candidate
//! zones. Scoring measures geometry and belongs to the host; the order of
//! the scored candidates is decided here: lower scores first, and on equal
//! scores the later registration first.

use vstd::prelude::*;

use crate::reading_order::{lex_before, lex_order};
use crate::types::ZoneId;

verus! {

/// How candidate zones are ranked for a drag.
#[derive(Debug, Clone, Copy, PartialEq, Eq, Structural)]
#[non_exhaustive]
pub enum CollisionStrategy {
    /// Zones containing the pointer (within the recovery radius) rank by
    /// the pointer's distance to their edge (the default).
    PointerWithin,
    /// Rank by distance between centers.
    ClosestCenter,
    /// Rank by the nearest pair of corners.
    ClosestCorners,
    /// Rank by overlap with the dragged element's rectangle.
    RectIntersection,
}

impl Default for CollisionStrategy {
    fn default() -> (s: Self)
        ensures
            s == CollisionStrategy::PointerWithin,
    {
        CollisionStrategy::PointerWithin
    }
}

/// A scored candidate: the host's score as an integer key that orders as
/// the score does, and the zone's registration order.
#[derive(Debug, Clone, Copy, PartialEq, Eq, Structural)]
pub struct ScoredZone {
    pub zone: ZoneId,
    pub score_key: u64,
    pub order: u64,
}

/// Candidate `a` ranks before candidate `b` (both indices into `s`): a
/// lower score; on equal scores a later registration; and where both tie,
/// the candidate that came first.
pub open spec fn ranks_before(s: Seq<ScoredZone>, a: int, b: int) -> bool {
    ||| s[a].score_key < s[b].score_key
    ||| s[a].score_key == s[b].score_key && s[a].order > s[b].order
    ||| s[a].score_key == s[b].score_key && s[a].order == s[b].order && a < b
}

/// `perm` lists every candidate of `s` once, best first.
pub open spec fn is_ranking(s: Seq<ScoredZone>, perm: Seq<usize>) -> bool {
    &&& perm.len() == s.len()
    &&& forall|i: int| 0 <= i < perm.len() ==> #[trigger] perm[i] < s.len()
    &&& forall|i: int, j: int|
        0 <= i < j < perm.len() ==> ranks_before(s, #[trigger] perm[i] as int, #[trigger] perm[j] as int)
}

/// The two-part sort keys that order candidates as [`ranks_before`] does:
/// the score, then the registration order reversed.
pub open spec fn ranking_keys(s: Seq<ScoredZone>) -> Seq<(u64, u64)> {
    Seq::new(s.len(), |i: int| (s[i].score_key, (u64::MAX - s[i].order) as u64))
}

/// The ranking of `scored`: the indices of the candidates, best first.
pub fn ranking_order(scored: &[ScoredZone]) -> (perm: Vec<usize>)
    ensures
        is_ranking(scored@, perm@),
{
    let n = scored.len();
    let mut keys: Vec<(u64, u64)> = Vec::new();
    let mut i: usize = 0;
    while i < n
        invariant
            n == scored@.len(),
            i <= n,
            keys@ == ranking_keys(scored@).take(i as int),
        decreases n - i,
    {
        keys.push((scored[i].score_key, u64::MAX - scored[i].order));
        proof {
            assert(keys@ =~= ranking_keys(scored@).take(i + 1));
        }
        i = i + 1;
    }
    proof {
        assert(keys@ =~= ranking_keys(scored@));
    }
    let perm = lex_order(&keys);
    proof {
        let k = ranking_keys(scored@);
        assert forall|a: int, b: int| 0 <= a < b < perm@.len() implies ranks_before(
            scored@,
            #[trigger] perm@[a] as int,
            #[trigger] perm@[b] as int,
        ) by {
            assert(lex_before(k, perm@[a] as int, perm@[b] as int));
        }
    }
    perm
}

/// The ranked zones: `scored` in the order of [`ranking_order`].
pub fn rank_scored(scored: &[ScoredZone]) -> (r: Vec<ZoneId>)
    ensures
        exists|perm: Seq<usize>|
            is_ranking(scored@, perm) && r@.len() == perm.len() && forall|k: int|
                0 <= k < perm.len() ==> #[trigger] r@[k] == scored@[perm[k] as int].zone,
{
    let perm = ranking_order(scored);
    let mut r: Vec<ZoneId> = Vec::new();
    let mut k: usize = 0;
    while k < perm.len()
        invariant
            is_ranking(scored@, perm@),
            k <= perm@.len(),
            r@.len() == k,
            forall|j: int| 0 <= j < k ==> #[trigger] r@[j] == scored@[perm@[j] as int].zone,
        decreases perm@.len() - k,
    {
        let ix = perm[k];
        r.push(scored[ix].zone);
        k = k + 1;
    }
    r
}

} // verus!
