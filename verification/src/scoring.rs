//! Strategy-weighted scoring for store-driven matches.  This is a distinct
//! formula from the simulator's rating: the base score is the sum of an
//! entity's confidence-scaled stats (in millionths), and the decided
//! strategy multiplies it by a factor in tenths, so adjusted scores come
//! out in ten-millionths.

use vstd::prelude::*;
use crate::brain::Strategy;

verus! {

/// Sum of a sequence of stat values, as an unbounded integer.
pub open spec fn sum_u64(s: Seq<u64>) -> int
    decreases s.len(),
{
    if s.len() == 0 {
        0
    } else {
        sum_u64(s.drop_last()) + s.last()
    }
}

/// Partial sums grow towards the total: every prefix sum is non-negative
/// and at most the whole sum.
pub proof fn lemma_sum_u64_take(s: Seq<u64>, j: int)
    requires
        0 <= j <= s.len(),
    ensures
        0 <= sum_u64(s.take(j)) <= sum_u64(s),
        j < s.len() ==> sum_u64(s.take(j + 1)) == sum_u64(s.take(j)) + s[j],
    decreases s.len() - j,
{
    if j < s.len() {
        assert(s.take(j + 1).drop_last() =~= s.take(j));
        assert(s.take(j + 1).last() == s[j]);
        lemma_sum_u64_take(s, j + 1);
        lemma_sum_u64_nonneg(s.take(j));
    } else {
        assert(s.take(j) =~= s);
        lemma_sum_u64_nonneg(s);
    }
}

/// A sum of unsigned values is non-negative.
pub proof fn lemma_sum_u64_nonneg(s: Seq<u64>)
    ensures
        sum_u64(s) >= 0,
    decreases s.len(),
{
    if s.len() > 0 {
        lemma_sum_u64_nonneg(s.drop_last());
    }
}

/// A sequence of values each at most `bound` sums to at most
/// `len * bound`.
pub proof fn lemma_sum_u64_bounded(s: Seq<u64>, bound: int)
    requires
        forall|k: int| 0 <= k < s.len() ==> s[k] <= bound,
    ensures
        sum_u64(s) <= s.len() * bound,
    decreases s.len(),
{
    if s.len() > 0 {
        lemma_sum_u64_bounded(s.drop_last(), bound);
        assert((s.len() - 1) * bound + bound == s.len() * bound) by (nonlinear_arith);
    }
}

/// Multiplier a strategy applies to the base score, in tenths:
/// aggressive `1.2`, defensive `0.9`, balanced `1.0`, adaptive `1.1`.
pub open spec fn spec_strategy_multiplier(s: Strategy) -> int {
    match s {
        Strategy::Aggressive => 12,
        Strategy::Defensive => 9,
        Strategy::Balanced => 10,
        Strategy::Adaptive => 11,
    }
}

/// Executable counterpart of [`spec_strategy_multiplier`].
pub fn strategy_multiplier(s: Strategy) -> (r: u64)
    ensures
        r == spec_strategy_multiplier(s),
{
    match s {
        Strategy::Aggressive => 12,
        Strategy::Defensive => 9,
        Strategy::Balanced => 10,
        Strategy::Adaptive => 11,
    }
}

/// The values of a stat snapshot, without their skill names.
pub open spec fn stat_values(stats: Seq<(Seq<char>, u64)>) -> Seq<u64> {
    stats.map_values(|p: (Seq<char>, u64)| p.1)
}

/// Adjusted score of a stat snapshot under a strategy: the sum of the
/// stat values (millionths) times the strategy multiplier (tenths), in
/// ten-millionths.  The bound on the sum is a machine limit: the product
/// must fit the result type.
pub fn calculate_score_with_strategy(stats: &Vec<(String, u64)>, strategy: Strategy) -> (r: u128)
    requires
        sum_u64(stats@.map_values(|p: (String, u64)| p.1)) * 12 <= u128::MAX,
    ensures
        r == sum_u64(stats@.map_values(|p: (String, u64)| p.1))
            * spec_strategy_multiplier(strategy),
{
    let ghost values = stats@.map_values(|p: (String, u64)| p.1);
    let n = stats.len();
    let mut base: u128 = 0;
    let mut j: usize = 0;
    proof {
        assert(values.take(0) =~= Seq::<u64>::empty());
    }
    while j < n
        invariant
            j <= n,
            n == stats.len(),
            values == stats@.map_values(|p: (String, u64)| p.1),
            sum_u64(values) * 12 <= u128::MAX,
            base == sum_u64(values.take(j as int)),
        decreases n - j,
    {
        proof {
            lemma_sum_u64_take(values, j as int);
            assert(sum_u64(values) * 1 <= sum_u64(values) * 12) by (nonlinear_arith)
                requires
                    sum_u64(values) >= 0,
            ;
        }
        base = base + (stats[j].1 as u128);
        j += 1;
    }
    proof {
        assert(values.take(n as int) =~= values);
        lemma_sum_u64_nonneg(values);
    }
    let m = strategy_multiplier(strategy);
    proof {
        assert(sum_u64(values) * m <= sum_u64(values) * 12) by (nonlinear_arith)
            requires
                sum_u64(values) >= 0,
                0 <= m <= 12,
        ;
    }
    base * (m as u128)
}

} // verus!
