//! Quorum-of-K oracle price resolution.
//!
//! Submitted prices are sorted ascending; the first window of `K`
//! consecutive sorted prices whose spread is within `max_deviation_bps` of
//! the window's lowest price decides, and its lower median is the
//! canonical price.

use vstd::prelude::*;
use crate::types::{ContractError, OracleQuorumConfig};

verus! {

broadcast use vstd::seq_lib::group_to_multiset_ensures;

/// Most price feeds one submission may carry.
pub const MAX_ORACLE_FEEDS: usize = 20;

/// Where `x` goes in `s`: after every leading element not above it.
pub open spec fn first_gt(s: Seq<i128>, x: i128) -> int
    decreases s.len(),
{
    if s.len() == 0 {
        0
    } else if s[0] > x {
        0
    } else {
        1 + first_gt(s.drop_first(), x)
    }
}

/// `s` with `x` inserted before its first element above `x`.
pub open spec fn insert_sorted(s: Seq<i128>, x: i128) -> Seq<i128> {
    s.insert(first_gt(s, x), x)
}

/// Insertion sort, ascending.
pub open spec fn sort_spec(s: Seq<i128>) -> Seq<i128>
    decreases s.len(),
{
    if s.len() == 0 {
        Seq::empty()
    } else {
        insert_sorted(sort_spec(s.drop_last()), s.last())
    }
}

/// Whether `s` is in ascending order.
pub open spec fn sorted(s: Seq<i128>) -> bool {
    forall|i: int, j: int| 0 <= i <= j < s.len() ==> s[i] <= s[j]
}

/// Whether the `k` prices from `j` spread at most `dev` bps of the lowest.
pub open spec fn window_agrees(s: Seq<i128>, j: int, k: int, dev: u32) -> bool {
    (s[j + k - 1] - s[j]) * 10_000 <= dev * s[j]
}

/// The first agreeing window at or after `j`.
pub open spec fn first_window(s: Seq<i128>, k: int, dev: u32, j: int) -> Option<int>
    decreases s.len() - j,
{
    if j < 0 || k < 1 || j + k > s.len() {
        None
    } else if window_agrees(s, j, k, dev) {
        Some(j)
    } else {
        first_window(s, k, dev, j + 1)
    }
}

/// The outcome of resolving `prices` under `cfg`.
pub open spec fn quorum_spec(prices: Seq<i128>, cfg: OracleQuorumConfig) -> Result<i128, ContractError> {
    if prices.len() < 2 || prices.len() > MAX_ORACLE_FEEDS {
        Err(ContractError::OraclePriceInvalid)
    } else if exists|i: int| 0 <= i < prices.len() && #[trigger] prices[i] <= 0 {
        Err(ContractError::OraclePriceInvalid)
    } else {
        let s = sort_spec(prices);
        match first_window(s, cfg.min_quorum_k as int, cfg.max_deviation_bps, 0) {
            None => Err(ContractError::OraclePriceDeviation),
            Some(j) => Ok(s[j + (cfg.min_quorum_k - 1) / 2]),
        }
    }
}

proof fn lemma_first_gt_bounds(s: Seq<i128>, x: i128)
    ensures
        0 <= first_gt(s, x) <= s.len(),
    decreases s.len(),
{
    if s.len() > 0 && s[0] <= x {
        lemma_first_gt_bounds(s.drop_first(), x);
    }
}

proof fn lemma_first_gt_is_first(s: Seq<i128>, x: i128, i: int)
    requires
        0 <= i <= s.len(),
        forall|j: int| 0 <= j < i ==> s[j] <= x,
        i == s.len() || s[i] > x,
    ensures
        first_gt(s, x) == i,
    decreases s.len(),
{
    if s.len() > 0 && i > 0 {
        lemma_first_gt_is_first(s.drop_first(), x, i - 1);
    }
}

proof fn lemma_first_gt_splits(s: Seq<i128>, x: i128)
    requires
        sorted(s),
    ensures
        forall|j: int| 0 <= j < first_gt(s, x) ==> s[j] <= x,
        forall|j: int| first_gt(s, x) <= j < s.len() ==> s[j] > x,
    decreases s.len(),
{
    lemma_first_gt_bounds(s, x);
    if s.len() > 0 && s[0] <= x {
        let t = s.drop_first();
        assert(sorted(t)) by {
            assert forall|i: int, j: int| 0 <= i <= j < t.len() implies t[i] <= t[j] by {
                assert(s[i + 1] <= s[j + 1]);
            }
        }
        lemma_first_gt_splits(t, x);
        lemma_first_gt_bounds(t, x);
        assert forall|j: int| 0 <= j < first_gt(s, x) implies s[j] <= x by {
            if j > 0 {
                assert(s[j] == t[j - 1]);
            }
        }
        assert forall|j: int| first_gt(s, x) <= j < s.len() implies s[j] > x by {
            assert(s[j] == t[j - 1]);
        }
    }
}

/// Sorting keeps the multiset of prices.
pub proof fn lemma_sort_permutes(s: Seq<i128>)
    ensures
        sort_spec(s).to_multiset() == s.to_multiset(),
        sort_spec(s).len() == s.len(),
    decreases s.len(),
{
    if s.len() > 0 {
        let t = sort_spec(s.drop_last());
        lemma_sort_permutes(s.drop_last());
        lemma_first_gt_bounds(t, s.last());
        vstd::seq_lib::to_multiset_insert(t, first_gt(t, s.last()), s.last());
        assert(s.drop_last().push(s.last()) =~= s);
    }
}

/// Insertion sort sorts: its result is ascending.
pub proof fn law_sort_sorted(s: Seq<i128>)
    ensures
        sorted(sort_spec(s)),
    decreases s.len(),
{
    if s.len() > 0 {
        let t = sort_spec(s.drop_last());
        let x = s.last();
        law_sort_sorted(s.drop_last());
        lemma_first_gt_splits(t, x);
        lemma_first_gt_bounds(t, x);
        let p = first_gt(t, x);
        let r = t.insert(p, x);
        assert(r.len() == t.len() + 1);
        assert forall|i: int| 0 <= i < r.len() implies #[trigger] r[i] == (if i < p { t[i] } else if i == p { x } else { t[i - 1] }) by {}
        assert forall|i: int, j: int| 0 <= i <= j < r.len() implies r[i] <= r[j] by {
            assert(r[i] == (if i < p { t[i] } else if i == p { x } else { t[i - 1] }));
            assert(r[j] == (if j < p { t[j] } else if j == p { x } else { t[j - 1] }));
        }
    }
}

/// Every sorted price is one of the submitted prices.
proof fn lemma_sorted_members(s: Seq<i128>, i: int)
    requires
        0 <= i < sort_spec(s).len(),
    ensures
        s.contains(sort_spec(s)[i]),
{
    lemma_sort_permutes(s);
    let a = sort_spec(s)[i];
    assert(sort_spec(s).contains(a));
    assert(sort_spec(s).to_multiset().count(a) > 0);
    assert(s.to_multiset().count(a) > 0);
}

/// Sort the prices ascending.
pub fn sort_prices(prices: &Vec<i128>) -> (s: Vec<i128>)
    ensures
        s@ == sort_spec(prices@),
{
    let mut out: Vec<i128> = Vec::new();
    let mut i: usize = 0;
    while i < prices.len()
        invariant
            0 <= i <= prices@.len(),
            out@ == sort_spec(prices@.take(i as int)),
        decreases prices@.len() - i,
    {
        let x = prices[i];
        let mut p: usize = 0;
        proof {
            lemma_sort_permutes(prices@.take(i as int));
        }
        while p < out.len() && out[p] <= x
            invariant
                0 <= p <= out@.len(),
                forall|j: int| 0 <= j < p ==> out@[j] <= x,
            decreases out@.len() - p,
        {
            p = p + 1;
        }
        proof {
            lemma_first_gt_is_first(out@, x, p as int);
            assert(prices@.take(i as int + 1).drop_last() =~= prices@.take(i as int));
            assert(prices@.take(i as int + 1).last() == x);
        }
        out.insert(p, x);
        i = i + 1;
    }
    proof {
        assert(prices@.take(prices@.len() as int) =~= prices@);
    }
    out
}

proof fn lemma_spread_bound(d: int, lo: int, dev: int)
    requires
        d >= 0,
        lo > 0,
        dev >= 0,
    ensures
        (d * 10_000 <= dev * lo) == (d <= (lo / 10_000) * dev + ((lo % 10_000) * dev) / 10_000),
{
    let q = lo / 10_000;
    let r = lo % 10_000;
    vstd::arithmetic::div_mod::lemma_fundamental_div_mod(lo, 10_000);
    let x = r * dev;
    assert(x >= 0) by (nonlinear_arith)
        requires r >= 0, dev >= 0, x == r * dev;
    vstd::arithmetic::div_mod::lemma_fundamental_div_mod(x, 10_000);
    assert(dev * lo == 10_000 * (q * dev) + x) by (nonlinear_arith)
        requires lo == 10_000 * q + r, x == r * dev;
    let m = d - q * dev;
    assert((d * 10_000 <= dev * lo) == (10_000 * m <= x)) by (nonlinear_arith)
        requires m == d - q * dev, dev * lo == 10_000 * (q * dev) + x;
    assert((10_000 * m <= x) == (m <= x / 10_000)) by (nonlinear_arith)
        requires x >= 0, x == 10_000 * (x / 10_000) + x % 10_000, 0 <= x % 10_000 < 10_000;
}

/// Whether `hi - lo` is within `dev` bps of `lo` (for a positive `lo`),
/// computed without overflow.
fn spread_within(lo: i128, hi: i128, dev: u32) -> (r: bool)
    requires
        lo > 0,
        hi > 0,
    ensures
        r == ((hi - lo) * 10_000 <= dev * lo),
{
    if hi <= lo {
        assert((hi - lo) * 10_000 <= 0 && 0 <= dev * lo) by (nonlinear_arith)
            requires hi <= lo, lo > 0, dev >= 0;
        return true;
    }
    let d: u128 = (hi - lo) as u128;
    let l: u128 = lo as u128;
    let q: u128 = l / 10_000;
    let rem: u128 = l % 10_000;
    proof {
        lemma_spread_bound(d as int, l as int, dev as int);
    }
    assert(rem * (dev as u128) <= 10_000 * 0xffff_ffff) by (nonlinear_arith)
        requires rem < 10_000, dev <= 0xffff_ffff;
    let lo_part: u128 = rem * (dev as u128) / 10_000;
    let hi_part: u128 = match q.checked_mul(dev as u128) {
        Some(x) => x,
        None => return true,
    };
    match hi_part.checked_add(lo_part) {
        Some(bound) => d <= bound,
        None => true,
    }
}

/// Resolve a quorum price: between 2 and 20 positive prices
/// (`OraclePriceInvalid` otherwise), sorted; the lower median of the first
/// window of `min_quorum_k` prices whose spread is within
/// `max_deviation_bps` of its lowest price, or `OraclePriceDeviation` when
/// no window agrees.
pub fn resolve_quorum_price(prices: &Vec<i128>, cfg: &OracleQuorumConfig) -> (r: Result<i128, ContractError>)
    ensures
        r == quorum_spec(prices@, *cfg),
{
    let n = prices.len();
    if n < 2 || n > MAX_ORACLE_FEEDS {
        return Err(ContractError::OraclePriceInvalid);
    }
    let mut i: usize = 0;
    while i < n
        invariant
            0 <= i <= n,
            n == prices@.len(),
            forall|j: int| 0 <= j < i ==> prices@[j] > 0,
        decreases n - i,
    {
        if prices[i] <= 0 {
            return Err(ContractError::OraclePriceInvalid);
        }
        i = i + 1;
    }
    let s = sort_prices(prices);
    proof {
        lemma_sort_permutes(prices@);
        assert forall|j: int| 0 <= j < s@.len() implies s@[j] > 0 by {
            lemma_sorted_members(prices@, j);
            let w = choose|w: int| 0 <= w < prices@.len() && prices@[w] == s@[j];
        }
    }
    let k = cfg.min_quorum_k;
    let dev = cfg.max_deviation_bps;
    if k == 0 || (k as usize) > n {
        proof {
            assert(first_window(s@, k as int, dev, 0) is None);
        }
        return Err(ContractError::OraclePriceDeviation);
    }
    let ku = k as usize;
    let mut j: usize = 0;
    while j + ku <= n
        invariant
            1 <= ku <= n,
            2 <= n <= MAX_ORACLE_FEEDS,
            n == prices@.len(),
            s@ == sort_spec(prices@),
            forall|t: int| 0 <= t < prices@.len() ==> prices@[t] > 0,
            k == cfg.min_quorum_k,
            dev == cfg.max_deviation_bps,
            ku == k,
            n == s@.len(),
            0 <= j <= n,
            forall|t: int| 0 <= t < s@.len() ==> s@[t] > 0,
            first_window(s@, k as int, dev, 0) == first_window(s@, k as int, dev, j as int),
        decreases n - j,
    {
        if spread_within(s[j], s[j + ku - 1], dev) {
            return Ok(s[j + (ku - 1) / 2]);
        }
        j = j + 1;
    }
    Err(ContractError::OraclePriceDeviation)
}

/// The canonical quorum price is one of the submitted prices.
pub proof fn law_quorum_price_submitted(prices: Seq<i128>, cfg: OracleQuorumConfig)
    requires
        quorum_spec(prices, cfg) is Ok,
    ensures
        prices.contains(quorum_spec(prices, cfg)->Ok_0),
{
    lemma_sort_permutes(prices);
    let s = sort_spec(prices);
    let j = first_window(s, cfg.min_quorum_k as int, cfg.max_deviation_bps, 0)->0;
    lemma_first_window_in_range(s, cfg.min_quorum_k as int, cfg.max_deviation_bps, 0);
    lemma_sorted_members(prices, j + (cfg.min_quorum_k - 1) / 2);
}

proof fn lemma_first_window_in_range(s: Seq<i128>, k: int, dev: u32, j: int)
    ensures
        first_window(s, k, dev, j) matches Some(w) ==> j <= w && k >= 1 && w + k <= s.len()
            && window_agrees(s, w, k, dev),
    decreases s.len() - j,
{
    if !(j < 0 || k < 1 || j + k > s.len()) && !window_agrees(s, j, k, dev) {
        lemma_first_window_in_range(s, k, dev, j + 1);
    }
}

} // verus!
