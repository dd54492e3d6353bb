//! The records that the engine hands back: one position per protocol and
//! owner, and the summary of a set of positions.

use crate::address::Address;
use crate::numeric::{unsigned, I256, U256};
use vstd::prelude::*;

verus! {

/// The venues that positions come from.
#[derive(Clone, Copy, Debug, PartialEq, Eq, Structural)]
pub enum Protocol {
    /// The lending market.
    Lending,
    /// The concentrated-liquidity AMM.
    ConcentratedAmm,
    /// The stableswap AMM.
    StableAmm,
}

impl Protocol {
    /// The tag under which the venue goes over the wire.
    pub open spec fn spec_tag(self) -> u8 {
        match self {
            Protocol::Lending => 0,
            Protocol::ConcentratedAmm => 1,
            Protocol::StableAmm => 2,
        }
    }

    /// The tag under which the venue goes over the wire.
    pub fn tag(&self) -> (r: u8)
        ensures
            r == self.spec_tag(),
    {
        match self {
            Protocol::Lending => 0,
            Protocol::ConcentratedAmm => 1,
            Protocol::StableAmm => 2,
        }
    }
}

/// One owner's holdings in one venue at the time of the query.
#[derive(Clone, Debug, PartialEq, Eq)]
pub struct PositionView {
    /// The account that holds the position.
    pub owner: Address,
    /// The venue.
    pub protocol: Protocol,
    /// The assets involved, in the venue's own order.
    pub assets: Vec<Address>,
    /// One quantity per asset, in the asset's smallest unit.
    pub amounts: Vec<U256>,
    /// Annual rate, scaled by ten to the power 18.
    pub apr: U256,
    /// Annual yield, scaled by ten to the power 18.
    pub apy: U256,
    /// Value in USD, scaled by ten to the power 8.
    pub accrued_usd: I256,
    /// The time of the query.
    pub updated_at: U256,
}

/// The numbers of a list of 256-bit values, in order.
pub open spec fn numbers(values: Seq<U256>) -> Seq<nat> {
    values.map_values(|v: U256| v@)
}

/// What a [`PositionView`] stands for: its lists as sequences and its
/// quantities as numbers.
pub struct Position {
    pub owner: Address,
    pub protocol: Protocol,
    pub assets: Seq<Address>,
    pub amounts: Seq<nat>,
    pub apr: nat,
    pub apy: nat,
    pub accrued_usd: int,
    pub updated_at: nat,
}

impl View for PositionView {
    type V = Position;

    open spec fn view(&self) -> Position {
        Position {
            owner: self.owner,
            protocol: self.protocol,
            assets: self.assets@,
            amounts: numbers(self.amounts@),
            apr: self.apr@,
            apy: self.apy@,
            accrued_usd: self.accrued_usd@,
            updated_at: self.updated_at@,
        }
    }
}

impl Position {
    /// Every asset has its amount.
    pub open spec fn aligned(self) -> bool {
        self.assets.len() == self.amounts.len()
    }

    /// The value that the position enters a summary with: its accrued USD
    /// read as an unsigned number, bit for bit, so that a negative accrual
    /// enters as its two's complement.
    pub open spec fn value(self) -> nat {
        unsigned(self.accrued_usd)
    }

    /// Whether the position counts towards the weighted yield: both its yield
    /// and its value are above zero.
    pub open spec fn weighs(self) -> bool {
        self.apy > 0 && self.value() > 0
    }
}

/// The positions that a list of records stands for, in order.
pub open spec fn views(positions: Seq<PositionView>) -> Seq<Position> {
    positions.map_values(|p: PositionView| p@)
}

/// The position that an optional record stands for.
pub open spec fn view_of(position: Option<PositionView>) -> Option<Position> {
    match position {
        Some(p) => Some(p@),
        None => None,
    }
}

/// What a [`PortfolioSummary`] stands for.
pub struct Summary {
    pub total_value: nat,
    pub total_accrued: nat,
    pub weighted_apy: nat,
    pub last_updated: nat,
}

/// The valuation of a set of positions.
#[derive(Clone, Copy, Debug, PartialEq, Eq, Structural)]
pub struct PortfolioSummary {
    /// The sum of the positions' values.
    pub total_value: U256,
    /// The same sum again.
    pub total_accrued: U256,
    /// The average yield of the positions that weigh, weighted by value.
    pub weighted_apy: U256,
    /// The time of the query.
    pub last_updated: U256,
}

impl View for PortfolioSummary {
    type V = Summary;

    open spec fn view(&self) -> Summary {
        Summary {
            total_value: self.total_value@,
            total_accrued: self.total_accrued@,
            weighted_apy: self.weighted_apy@,
            last_updated: self.last_updated@,
        }
    }
}

impl Summary {
    /// The summary that is all zero.
    pub open spec fn zero() -> Summary {
        Summary { total_value: 0, total_accrued: 0, weighted_apy: 0, last_updated: 0 }
    }
}

impl PortfolioSummary {
    /// The summary that is all zero.
    pub fn zero() -> (r: PortfolioSummary)
        ensures
            r@ == Summary::zero(),
    {
        PortfolioSummary {
            total_value: U256::zero(),
            total_accrued: U256::zero(),
            weighted_apy: U256::zero(),
            last_updated: U256::zero(),
        }
    }
}

} // verus!
