//! Spatial reading order of zones for keyboard navigation.
//!
//! Measured zones come first, by their top; zones whose tops lie close
//! together form a row, read left to right (right to left under RTL);
//! unmeasured zones follow in registration order. The host turns each
//! zone's top and left edge into integer keys that order as the
//! coordinates do, and says which tops share a row; the order is decided
//! here.

use vstd::prelude::*;

use crate::types::Direction;

verus! {

/// Index `a` comes before index `b` under the two-part keys `k`: by the
/// first part, then the second, then the index itself.
pub open spec fn lex_before(k: Seq<(u64, u64)>, a: int, b: int) -> bool {
    ||| k[a].0 < k[b].0
    ||| k[a].0 == k[b].0 && k[a].1 < k[b].1
    ||| k[a].0 == k[b].0 && k[a].1 == k[b].1 && a < b
}

/// `p` lists the indices of `k` once each, in [`lex_before`] order.
pub open spec fn is_lex_order(k: Seq<(u64, u64)>, p: Seq<usize>) -> bool {
    &&& p.len() == k.len()
    &&& forall|i: int| 0 <= i < p.len() ==> #[trigger] p[i] < k.len()
    &&& forall|i: int, j: int|
        0 <= i < j < p.len() ==> lex_before(k, #[trigger] p[i] as int, #[trigger] p[j] as int)
}

fn lex_less(k: &Vec<(u64, u64)>, a: usize, b: usize) -> (r: bool)
    requires
        a < k@.len(),
        b < k@.len(),
    ensures
        r == lex_before(k@, a as int, b as int),
{
    let x = k[a];
    let y = k[b];
    x.0 < y.0 || (x.0 == y.0 && (x.1 < y.1 || (x.1 == y.1 && a < b)))
}

/// The indices of `k` in [`lex_before`] order: a stable sort by the keys.
pub fn lex_order(k: &Vec<(u64, u64)>) -> (p: Vec<usize>)
    ensures
        is_lex_order(k@, p@),
{
    let n = k.len();
    let mut p: Vec<usize> = Vec::new();
    let mut i: usize = 0;
    while i < n
        invariant
            n == k@.len(),
            i <= n,
            p@.len() == i,
            forall|t: int| 0 <= t < p@.len() ==> #[trigger] p@[t] < i,
            forall|a: int, b: int|
                0 <= a < b < p@.len() ==> lex_before(k@, #[trigger] p@[a] as int, #[trigger] p@[b] as int),
        decreases n - i,
    {
        let mut at: usize = 0;
        while at < p.len() && !lex_less(k, i, p[at])
            invariant
                n == k@.len(),
                i < n,
                at <= p@.len(),
                forall|t: int| 0 <= t < p@.len() ==> #[trigger] p@[t] < i,
                forall|t: int| 0 <= t < at ==> lex_before(k@, #[trigger] p@[t] as int, i as int),
            decreases p@.len() - at,
        {
            at = at + 1;
        }
        let ghost before = p@;
        proof {
            assert forall|t: int| at <= t < before.len() implies lex_before(
                k@,
                i as int,
                #[trigger] before[t] as int,
            ) by {
                if t > at {
                    assert(lex_before(k@, before[at as int] as int, before[t] as int));
                }
            }
        }
        p.insert(at, i);
        proof {
            let np = p@;
            assert(np == before.insert(at as int, i));
            assert forall|a: int, b: int| 0 <= a < b < np.len() implies lex_before(
                k@,
                #[trigger] np[a] as int,
                #[trigger] np[b] as int,
            ) by {
                if b < at {
                    assert(np[a] == before[a] && np[b] == before[b]);
                } else if b == at {
                    assert(np[a] == before[a]);
                } else if a < at {
                    assert(np[a] == before[a] && np[b] == before[b - 1]);
                } else if a == at {
                    assert(np[b] == before[b - 1]);
                } else {
                    assert(np[a] == before[a - 1] && np[b] == before[b - 1]);
                }
            }
            assert forall|t: int| 0 <= t < np.len() implies #[trigger] np[t] < i + 1 by {
                if t < at {
                    assert(np[t] == before[t]);
                } else if t > at {
                    assert(np[t] == before[t - 1]);
                }
            }
        }
        i = i + 1;
    }
    p
}

/// A zone as the reading order sees it: its top as an integer key that
/// orders as the top coordinate does (`None` while unmeasured), and its
/// left edge likewise.
#[derive(Debug, Clone, Copy, PartialEq, Eq, Structural)]
pub struct Placement {
    pub top: Option<u64>,
    pub left: u64,
}

/// Keys that put measured zones first, by top, and unmeasured ones after.
pub open spec fn top_keys(s: Seq<Placement>) -> Seq<(u64, u64)> {
    Seq::new(
        s.len(),
        |i: int|
            match s[i].top {
                Some(t) => (0u64, t),
                None => (1u64, 0u64),
            },
    )
}

/// A left-edge key in reading order: as is under LTR, reversed under RTL.
pub open spec fn reading_key(left: u64, dir: Direction) -> u64 {
    match dir {
        Direction::Ltr => left,
        Direction::Rtl => (u64::MAX - left) as u64,
    }
}

/// Keys ordering the zones of one row (`row` lists zone indices in top
/// order) by reading order; ties keep their top order.
pub open spec fn row_keys(s: Seq<Placement>, row: Seq<usize>, dir: Direction) -> Seq<(u64, u64)> {
    Seq::new(row.len(), |i: int| (reading_key(s[row[i] as int].left, dir), 0u64))
}

/// The host's row test accepts every pair of zones and answers each pair
/// one way.
pub open spec fn is_row_test<F: Fn(usize, usize) -> bool>(f: F) -> bool {
    &&& forall|a: usize, b: usize| #[trigger] f.requires((a, b))
    &&& forall|a: usize, b: usize, x: bool, y: bool|
        #[trigger] f.ensures((a, b), x) && #[trigger] f.ensures((a, b), y) ==> x == y
}

/// Does zone `b` share the row that zone `a` starts?
pub open spec fn shares_row<F: Fn(usize, usize) -> bool>(f: F, a: usize, b: usize) -> bool {
    choose|x: bool| f.ensures((a, b), x)
}

/// Where the row starting at position `start` of `p` ends, looking from
/// position `k` on: the first position before `m` whose zone does not
/// share the row, else `m`.
pub open spec fn row_scan<F: Fn(usize, usize) -> bool>(f: F, p: Seq<usize>, m: int, start: int, k: int) -> int
    decreases m - k,
{
    if k >= m {
        m
    } else if !shares_row(f, p[start], p[k]) {
        k
    } else {
        row_scan(f, p, m, start, k + 1)
    }
}

/// `r` is the zones of `row` in reading order.
pub open spec fn row_read(s: Seq<Placement>, dir: Direction, row: Seq<usize>, r: Seq<usize>) -> bool {
    exists|q: Seq<usize>|
        is_lex_order(row_keys(s, row, dir), q) && r.len() == q.len() && forall|t: int|
            0 <= t < q.len() ==> #[trigger] r[t] == row[q[t] as int]
}

/// `out` reads the rows of `p` (zones in top order, the first `m`
/// measured) from position `start` on: each row in reading order, then the
/// unmeasured zones as they stand.
pub open spec fn rows_read<F: Fn(usize, usize) -> bool>(
    s: Seq<Placement>,
    f: F,
    dir: Direction,
    p: Seq<usize>,
    m: int,
    start: int,
    out: Seq<usize>,
) -> bool
    decreases m - start,
{
    if start >= m {
        out == p.subrange(m, p.len() as int)
    } else {
        let e = row_scan(f, p, m, start, start + 1);
        &&& start < e <= m
        &&& out.len() >= e - start
        &&& row_read(s, dir, p.subrange(start, e), out.take(e - start))
        &&& rows_read(s, f, dir, p, m, e, out.skip(e - start))
    }
}

/// `out` is the reading order of the zones `s` under `dir`, with rows as
/// `same_row` tells.
pub open spec fn is_reading_order<F: Fn(usize, usize) -> bool>(
    s: Seq<Placement>,
    same_row: F,
    dir: Direction,
    out: Seq<usize>,
) -> bool {
    exists|p: Seq<usize>, m: int|
        {
            &&& is_lex_order(top_keys(s), p)
            &&& 0 <= m <= p.len()
            &&& forall|t: int| 0 <= t < m ==> s[#[trigger] p[t] as int].top is Some
            &&& forall|t: int| m <= t < p.len() ==> s[#[trigger] p[t] as int].top is None
            &&& rows_read(s, same_row, dir, p, m, 0, out)
        }
}

proof fn lemma_row_scan_bounds<F: Fn(usize, usize) -> bool>(f: F, p: Seq<usize>, m: int, start: int, k: int)
    requires
        start < k,
    ensures
        k <= m ==> start < row_scan(f, p, m, start, k) <= m,
        k > m ==> row_scan(f, p, m, start, k) == m,
    decreases m - k,
{
    if k < m && shares_row(f, p[start], p[k]) {
        lemma_row_scan_bounds(f, p, m, start, k + 1);
    }
}

/// The zones' indices in spatial reading order. `same_row(a, b)` tells
/// whether zone `b`'s top lies close enough to zone `a`'s to share the row
/// that `a` starts.
pub fn reading_order<F: Fn(usize, usize) -> bool>(zones: &Vec<Placement>, dir: Direction, same_row: F) -> (out: Vec<
    usize,
>)
    requires
        is_row_test(same_row),
    ensures
        is_reading_order(zones@, same_row, dir, out@),
{
    let n = zones.len();
    let mut keys: Vec<(u64, u64)> = Vec::new();
    let mut i: usize = 0;
    while i < n
        invariant
            n == zones@.len(),
            i <= n,
            keys@ == top_keys(zones@).take(i as int),
        decreases n - i,
    {
        let key = match zones[i].top {
            Some(t) => (0u64, t),
            None => (1u64, 0u64),
        };
        keys.push(key);
        proof {
            assert(keys@ =~= top_keys(zones@).take(i + 1));
        }
        i = i + 1;
    }
    proof {
        assert(keys@ =~= top_keys(zones@));
    }
    let p = lex_order(&keys);
    let ghost tk = top_keys(zones@);
    let mut m: usize = 0;
    while m < n && zones[p[m]].top.is_some()
        invariant
            n == zones@.len(),
            is_lex_order(tk, p@),
            tk == top_keys(zones@),
            m <= n,
            forall|t: int| 0 <= t < m ==> zones@[#[trigger] p@[t] as int].top is Some,
        decreases n - m,
    {
        m = m + 1;
    }
    proof {
        assert forall|t: int| m <= t < n implies zones@[#[trigger] p@[t] as int].top is None by {
            if t > m {
                assert(lex_before(tk, p@[m as int] as int, p@[t] as int));
            }
        }
    }
    let mut out: Vec<usize> = Vec::new();
    let mut start: usize = 0;
    while start < m
        invariant
            n == zones@.len(),
            is_row_test(same_row),
            is_lex_order(tk, p@),
            tk == top_keys(zones@),
            m <= n,
            start <= m,
            forall|t: int| 0 <= t < p@.len() ==> #[trigger] p@[t] < n,
            forall|rest: Seq<usize>|
                rows_read(zones@, same_row, dir, p@, m as int, start as int, rest) ==> #[trigger] rows_read(
                    zones@,
                    same_row,
                    dir,
                    p@,
                    m as int,
                    0,
                    out@ + rest,
                ),
        decreases m - start,
    {
        let mut end: usize = start + 1;
        loop
            invariant
                is_row_test(same_row),
                start < end <= m,
                m <= p@.len(),
                forall|t: int| 0 <= t < p@.len() ==> #[trigger] p@[t] < n,
                row_scan(same_row, p@, m as int, start as int, end as int) == row_scan(
                    same_row,
                    p@,
                    m as int,
                    start as int,
                    start + 1,
                ),
            ensures
                start < end <= m,
                end == row_scan(same_row, p@, m as int, start as int, start + 1),
            decreases m - end,
        {
            if end >= m {
                break;
            }
            let same = same_row(p[start], p[end]);
            proof {
                let x = shares_row(same_row, p@[start as int], p@[end as int]);
                assert(same_row.ensures((p@[start as int], p@[end as int]), x));
            }
            if !same {
                break;
            }
            end = end + 1;
        }
        let mut row_keys_v: Vec<(u64, u64)> = Vec::new();
        let mut j: usize = start;
        while j < end
            invariant
                start <= j <= end,
                end <= m,
                m <= p@.len(),
                n == zones@.len(),
                forall|t: int| 0 <= t < p@.len() ==> #[trigger] p@[t] < n,
                row_keys_v@ == row_keys(zones@, p@.subrange(start as int, end as int), dir).take(
                    j - start,
                ),
            decreases end - j,
        {
            let left = zones[p[j]].left;
            let key = match dir {
                Direction::Ltr => left,
                Direction::Rtl => u64::MAX - left,
            };
            row_keys_v.push((key, 0u64));
            proof {
                assert(row_keys_v@ =~= row_keys(zones@, p@.subrange(start as int, end as int), dir).take(
                    j + 1 - start,
                ));
            }
            j = j + 1;
        }
        let ghost row = p@.subrange(start as int, end as int);
        proof {
            assert(row_keys_v@ =~= row_keys(zones@, row, dir));
        }
        let q = lex_order(&row_keys_v);
        let ghost out0 = out@;
        let mut r: usize = 0;
        while r < q.len()
            invariant
                is_lex_order(row_keys(zones@, row, dir), q@),
                row == p@.subrange(start as int, end as int),
                start < end <= m,
                m <= p@.len(),
                r <= q@.len(),
                out@.len() == out0.len() + r,
                out@.take(out0.len() as int) == out0,
                forall|t: int| 0 <= t < r ==> #[trigger] out@[out0.len() + t] == row[q@[t] as int],
            decreases q@.len() - r,
        {
            let ix = q[r];
            out.push(p[start + ix]);
            proof {
                assert(out@.take(out0.len() as int) =~= out0);
            }
            r = r + 1;
        }
        proof {
            let seg = out@.skip(out0.len() as int);
            assert(out@ =~= out0 + seg);
            assert(seg.len() == q@.len());
            assert forall|t: int| 0 <= t < q@.len() implies #[trigger] seg[t] == row[q@[t] as int] by {
                assert(seg[t] == out@[out0.len() + t]);
            }
            assert(row_read(zones@, dir, row, seg));
            assert forall|rest: Seq<usize>|
                rows_read(zones@, same_row, dir, p@, m as int, end as int, rest) implies #[trigger] rows_read(
                    zones@,
                    same_row,
                    dir,
                    p@,
                    m as int,
                    0,
                    out@ + rest,
                ) by {
                let whole = seg + rest;
                assert(whole.take(end - start) =~= seg);
                assert(whole.skip(end - start) =~= rest);
                assert(rows_read(zones@, same_row, dir, p@, m as int, start as int, whole));
                assert(out0 + whole =~= out@ + rest);
            }
        }
        start = end;
    }
    proof {
        let rest = p@.subrange(m as int, n as int);
        assert(rows_read(zones@, same_row, dir, p@, m as int, m as int, rest));
    }
    let mut t: usize = m;
    while t < n
        invariant
            m <= t <= n,
            n == p@.len(),
            rows_read(zones@, same_row, dir, p@, m as int, 0, out@ + p@.subrange(t as int, n as int)),
        decreases n - t,
    {
        proof {
            assert(out@ + p@.subrange(t as int, n as int) =~= out@.push(p@[t as int]) + p@.subrange(
                t + 1,
                n as int,
            ));
        }
        out.push(p[t]);
        t = t + 1;
    }
    proof {
        assert(out@ + p@.subrange(n as int, n as int) =~= out@);
        assert(is_lex_order(top_keys(zones@), p@));
    }
    out
}

} // verus!
