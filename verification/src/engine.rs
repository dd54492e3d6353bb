//! The aggregation engine: the positions of one owner or of many, and their
//! summaries.
//!
//! The adapters run in a fixed order: lending market, concentrated-liquidity
//! AMM, stableswap AMM. While the engine is switched off every read answers
//! empty.

use crate::address::Address;
use crate::aggregator::{AggregatorState, YieldAggregator};
use crate::chain::{Chain, ChainView, Query};
use crate::plan::first_unknown;
use crate::position::{views, PortfolioSummary, Position, PositionView, Summary};
use crate::summary::summarize;
use vstd::prelude::*;

verus! {

/// The list that holds a position if there is one.
pub open spec fn listed(position: Option<Position>) -> Seq<Position> {
    match position {
        Some(p) => seq![p],
        None => Seq::empty(),
    }
}

impl AggregatorState {
    /// The positions of one owner, whatever the switch says: what the three
    /// adapters find, in their order.
    pub open spec fn owner_positions(self, owner: Address, chain: ChainView) -> Seq<Position> {
        listed(self.aave_position(owner, chain)) + listed(self.uniswap_position(owner, chain))
            + listed(self.curve_position(owner, chain))
    }

    /// What `get_positions` answers.
    pub open spec fn positions(self, owner: Address, chain: ChainView) -> Seq<Position> {
        if self.enabled {
            self.owner_positions(owner, chain)
        } else {
            Seq::empty()
        }
    }

    /// The positions of several owners, owner after owner, whatever the
    /// switch says.
    pub open spec fn owners_positions(self, owners: Seq<Address>, chain: ChainView) -> Seq<
        Position,
    >
        decreases owners.len(),
    {
        if owners.len() == 0 {
            Seq::empty()
        } else {
            self.owners_positions(owners.drop_last(), chain) + self.owner_positions(
                owners.last(),
                chain,
            )
        }
    }

    /// What `get_positions_multi` answers.
    pub open spec fn positions_multi(self, owners: Seq<Address>, chain: ChainView) -> Seq<
        Position,
    > {
        if self.enabled {
            self.owners_positions(owners, chain)
        } else {
            Seq::empty()
        }
    }

    /// What `get_portfolio_summary` answers.
    pub open spec fn portfolio_summary(self, owner: Address, chain: ChainView) -> Summary {
        if self.enabled {
            summarize(self.owner_positions(owner, chain), chain.timestamp)
        } else {
            Summary::zero()
        }
    }

    /// What `get_portfolio_summary_multi` answers.
    pub open spec fn portfolio_summary_multi(
        self,
        owners: Seq<Address>,
        chain: ChainView,
    ) -> Summary {
        if self.enabled {
            summarize(self.owners_positions(owners, chain), chain.timestamp)
        } else {
            Summary::zero()
        }
    }
}

/// While the engine is switched off every read answers empty or all zero,
/// whoever the owners are and whatever the chain holds, and asks for no
/// query.
pub proof fn lemma_switched_off(
    state: AggregatorState,
    owner: Address,
    owners: Seq<Address>,
    chain: ChainView,
)
    requires
        !state.enabled,
    ensures
        state.positions(owner, chain) == Seq::<Position>::empty(),
        state.positions_multi(owners, chain) == Seq::<Position>::empty(),
        state.portfolio_summary(owner, chain) == Summary::zero(),
        state.portfolio_summary_multi(owners, chain) == Summary::zero(),
        state.plan(owners, chain) == Seq::<Query>::empty(),
        first_unknown(state.plan(owners, chain), chain) is None,
{
}

impl YieldAggregator {
    /// The positions of `owner` across the three venues, in the order
    /// lending market, concentrated-liquidity AMM, stableswap AMM. A venue
    /// without a position adds nothing. Empty while the engine is switched
    /// off.
    pub fn get_positions(&self, owner: Address, chain: &Chain) -> (r: Vec<PositionView>)
        ensures
            views(r@) == self@.positions(owner, chain@),
            !self@.enabled ==> r@.len() == 0,
            r@.len() <= 3,
    {
        if !self.enabled() {
            let none: Vec<PositionView> = Vec::new();
            proof {
                assert(views(none@) =~= Seq::<Position>::empty());
            }
            return none;
        }
        let mut positions: Vec<PositionView> = Vec::new();
        proof {
            assert(views(positions@) =~= Seq::<Position>::empty());
        }
        if let Some(pos) = self.get_aave_positions(owner, chain) {
            proof {
                assert(views(positions@.push(pos)) =~= views(positions@) + seq![pos@]);
            }
            positions.push(pos);
        }
        proof {
            assert(views(positions@) =~= listed(self@.aave_position(owner, chain@)));
        }
        if let Some(pos) = self.get_uniswap_positions(owner, chain) {
            proof {
                assert(views(positions@.push(pos)) =~= views(positions@) + seq![pos@]);
            }
            positions.push(pos);
        }
        proof {
            assert(views(positions@) =~= listed(self@.aave_position(owner, chain@)) + listed(
                self@.uniswap_position(owner, chain@),
            ));
        }
        if let Some(pos) = self.get_curve_positions(owner, chain) {
            proof {
                assert(views(positions@.push(pos)) =~= views(positions@) + seq![pos@]);
            }
            positions.push(pos);
        }
        proof {
            assert(views(positions@) =~= self@.owner_positions(owner, chain@));
        }
        positions
    }

    /// The positions of each of `owners`, owner after owner in the order
    /// given; an owner named twice is answered twice. Empty while the engine
    /// is switched off.
    pub fn get_positions_multi(&self, owners: Vec<Address>, chain: &Chain) -> (r: Vec<
        PositionView,
    >)
        ensures
            views(r@) == self@.positions_multi(owners@, chain@),
            !self@.enabled ==> r@.len() == 0,
    {
        if !self.enabled() {
            let none: Vec<PositionView> = Vec::new();
            proof {
                assert(views(none@) =~= Seq::<Position>::empty());
            }
            return none;
        }
        let mut all_positions: Vec<PositionView> = Vec::new();
        let mut at: usize = 0;
        proof {
            assert(views(all_positions@) =~= Seq::<Position>::empty());
            assert(owners@.take(0) =~= Seq::<Address>::empty());
        }
        while at < owners.len()
            invariant
                at <= owners@.len(),
                self@.enabled,
                views(all_positions@) == self@.owners_positions(owners@.take(at as int), chain@),
            decreases owners@.len() - at,
        {
            let mut positions = self.get_positions(owners[at], chain);
            proof {
                let next = owners@.take(at as int + 1);
                assert(next.drop_last() =~= owners@.take(at as int));
                assert(next.last() == owners@[at as int]);
                assert(views(all_positions@ + positions@) =~= views(all_positions@) + views(
                    positions@,
                ));
            }
            all_positions.append(&mut positions);
            at = at + 1;
        }
        proof {
            assert(owners@.take(at as int) =~= owners@);
        }
        all_positions
    }

    /// The summary of the positions of `owner`. All zero while the engine is
    /// switched off.
    pub fn get_portfolio_summary(&self, owner: Address, chain: &Chain) -> (r: PortfolioSummary)
        ensures
            r@ == self@.portfolio_summary(owner, chain@),
            !self@.enabled ==> r@ == Summary::zero(),
    {
        if !self.enabled() {
            return PortfolioSummary::zero();
        }
        let positions = self.get_positions(owner, chain);
        self.calculate_portfolio_summary(positions, chain)
    }

    /// The summary of the positions of all of `owners` together. All zero
    /// while the engine is switched off.
    pub fn get_portfolio_summary_multi(&self, owners: Vec<Address>, chain: &Chain) -> (r:
        PortfolioSummary)
        ensures
            r@ == self@.portfolio_summary_multi(owners@, chain@),
            !self@.enabled ==> r@ == Summary::zero(),
    {
        if !self.enabled() {
            return PortfolioSummary::zero();
        }
        let all_positions = self.get_positions_multi(owners, chain);
        self.calculate_portfolio_summary(all_positions, chain)
    }
}

} // verus!
