//! The portfolio valuator: one pass over a set of positions that sums their
//! values and averages their yields by value.
//!
//! All sums and products are taken as 256-bit arithmetic takes them: they
//! wrap at two to the power 256.

use crate::aggregator::YieldAggregator;
use crate::chain::Chain;
use crate::numeric::{div, lemma_u256_range, modulus, wrapping_add, wrapping_mul, U256};
use crate::position::{views, PortfolioSummary, Position, PositionView, Summary};
use vstd::arithmetic::div_mod::{lemma_add_mod_noop, lemma_small_mod};
use vstd::prelude::*;

verus! {

/// The sum of the positions' values.
pub open spec fn sum_values(positions: Seq<Position>) -> nat
    decreases positions.len(),
{
    if positions.len() == 0 {
        0
    } else {
        sum_values(positions.drop_last()) + positions.last().value()
    }
}

/// What a position adds to the weight of the average: its value if it
/// weighs, and nothing otherwise.
pub open spec fn weight(position: Position) -> nat {
    if position.weighs() {
        position.value()
    } else {
        0
    }
}

/// What a position adds to the weighted sum: its value times its yield if it
/// weighs, and nothing otherwise.
pub open spec fn weighted(position: Position) -> nat {
    if position.weighs() {
        position.value() * position.apy
    } else {
        0
    }
}

/// The sum of the values of the positions that weigh.
pub open spec fn sum_weights(positions: Seq<Position>) -> nat
    decreases positions.len(),
{
    if positions.len() == 0 {
        0
    } else {
        sum_weights(positions.drop_last()) + weight(positions.last())
    }
}

/// The sum of value times yield over the positions that weigh.
pub open spec fn sum_weighted(positions: Seq<Position>) -> nat
    decreases positions.len(),
{
    if positions.len() == 0 {
        0
    } else {
        sum_weighted(positions.drop_last()) + weighted(positions.last())
    }
}

/// The yield of a set of positions, averaged by value over those that weigh:
/// the weighted sum over the weight, both wrapped, and zero where the weight
/// is zero.
pub open spec fn weighted_apy(positions: Seq<Position>) -> nat {
    let weight = sum_weights(positions) % modulus();
    if weight == 0 {
        0
    } else {
        (sum_weighted(positions) % modulus()) / weight
    }
}

/// The summary of a set of positions at a time.
pub open spec fn summarize(positions: Seq<Position>, now: u64) -> Summary {
    Summary {
        total_value: sum_values(positions) % modulus(),
        total_accrued: sum_values(positions) % modulus(),
        weighted_apy: weighted_apy(positions),
        last_updated: now as nat,
    }
}

/// What one more position adds to the three sums.
pub proof fn lemma_sums_push(seen: Seq<Position>, last: Position)
    ensures
        sum_values(seen.push(last)) == sum_values(seen) + last.value(),
        sum_weights(seen.push(last)) == sum_weights(seen) + weight(last),
        sum_weighted(seen.push(last)) == sum_weighted(seen) + weighted(last),
{
    assert(seen.push(last).drop_last() =~= seen);
}

/// The weight of a set of positions never exceeds its weighted sum: a
/// position that weighs has a yield of at least one.
pub proof fn lemma_weight_below_weighted(positions: Seq<Position>)
    ensures
        sum_weights(positions) <= sum_weighted(positions),
    decreases positions.len(),
{
    if positions.len() > 0 {
        lemma_weight_below_weighted(positions.drop_last());
        let last = positions.last();
        if last.weighs() {
            assert(last.value() <= last.value() * last.apy) by (nonlinear_arith)
                requires
                    last.apy >= 1,
            ;
        }
    }
}

/// Weighted yield, stated without wrapping: while the sum of value times
/// yield over the positions that weigh stays below two to the power 256, the
/// weighted yield is that sum divided by the sum of their values, and it is
/// zero where no position weighs. No division by zero is ever taken.
pub proof fn lemma_weighted_apy_exact(positions: Seq<Position>)
    requires
        sum_weighted(positions) < modulus(),
    ensures
        weighted_apy(positions) == (if sum_weights(positions) == 0 {
            0
        } else {
            sum_weighted(positions) / sum_weights(positions)
        }),
{
    lemma_weight_below_weighted(positions);
    lemma_small_mod(sum_weights(positions), modulus());
    lemma_small_mod(sum_weighted(positions), modulus());
}

/// Where no position weighs, the empty set included, the weight is zero and
/// so is the weighted yield.
pub proof fn lemma_nothing_weighs(positions: Seq<Position>)
    requires
        forall|i: int| 0 <= i < positions.len() ==> !(#[trigger] positions[i]).weighs(),
    ensures
        sum_weights(positions) == 0,
        sum_weighted(positions) == 0,
        weighted_apy(positions) == 0,
    decreases positions.len(),
{
    if positions.len() > 0 {
        lemma_nothing_weighs(positions.drop_last());
    }
    lemma_small_mod(0, modulus());
}

/// Adding a wrapped term to a wrapped sum and wrapping again gives the
/// wrapped sum of the whole.
proof fn lemma_wrapped_step(sum: nat, term: nat, wrapped_sum: nat, wrapped_term: nat, next: nat)
    requires
        wrapped_sum == sum % modulus(),
        wrapped_term == term % modulus(),
        next == (wrapped_sum + wrapped_term) % modulus(),
    ensures
        next == (sum + term) % modulus(),
{
    lemma_add_mod_noop(sum as int, term as int, modulus() as int);
}

impl YieldAggregator {
    /// Reduces a set of positions to its summary, stamped with the time of
    /// the request whatever the positions' own times are.
    pub fn calculate_portfolio_summary(&self, positions: Vec<PositionView>, chain: &Chain) -> (r:
        PortfolioSummary)
        ensures
            r@ == summarize(views(positions@), chain@.timestamp),
            r.total_value == r.total_accrued,
    {
        let ghost all = views(positions@);
        let mut total_value = U256::zero();
        let mut total_accrued = U256::zero();
        let mut weighted_value = U256::zero();
        let mut weighted_apy = U256::zero();
        let mut at: usize = 0;
        proof {
            assert(all.take(0) =~= Seq::<Position>::empty());
            lemma_small_mod(0, modulus());
        }
        while at < positions.len()
            invariant
                at <= positions@.len(),
                all == views(positions@),
                total_value == total_accrued,
                total_value@ == sum_values(all.take(at as int)) % modulus(),
                weighted_value@ == sum_weights(all.take(at as int)) % modulus(),
                weighted_apy@ == sum_weighted(all.take(at as int)) % modulus(),
            decreases positions@.len() - at,
        {
            let position_value = positions[at].accrued_usd.into_raw();
            let apy = positions[at].apy;
            let ghost seen = all.take(at as int);
            let ghost last = all[at as int];
            let ghost before = (total_value, weighted_value, weighted_apy);
            proof {
                assert(all.take(at as int + 1) =~= seen.push(last));
                lemma_sums_push(seen, last);
                lemma_u256_range(position_value);
                lemma_small_mod(position_value@, modulus());
                lemma_small_mod(0, modulus());
            }
            total_value = wrapping_add(total_value, position_value);
            total_accrued = wrapping_add(total_accrued, position_value);
            proof {
                lemma_wrapped_step(
                    sum_values(seen),
                    last.value(),
                    before.0@,
                    position_value@,
                    total_value@,
                );
            }
            if !apy.is_zero() && !position_value.is_zero() {
                let product = wrapping_mul(position_value, apy);
                weighted_value = wrapping_add(weighted_value, position_value);
                weighted_apy = wrapping_add(weighted_apy, product);
                proof {
                    lemma_wrapped_step(
                        sum_weights(seen),
                        weight(last),
                        before.1@,
                        position_value@,
                        weighted_value@,
                    );
                    lemma_wrapped_step(
                        sum_weighted(seen),
                        weighted(last),
                        before.2@,
                        product@,
                        weighted_apy@,
                    );
                }
            }
            at = at + 1;
        }
        proof {
            assert(all.take(at as int) =~= all);
        }
        let final_apy = if !weighted_value.is_zero() {
            div(weighted_apy, weighted_value)
        } else {
            U256::zero()
        };
        PortfolioSummary {
            total_value,
            total_accrued,
            weighted_apy: final_apy,
            last_updated: U256::from_u64(chain.timestamp()),
        }
    }
}

} // verus!
