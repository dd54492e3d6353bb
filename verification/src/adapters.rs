//! The price oracle adapter and the three protocol adapters.
//!
//! An adapter answers for one owner in one venue: a position if the owner
//! holds something there, and nothing otherwise. A query that failed never
//! surfaces from an adapter: the owner then simply has no position in that
//! venue. Only a price asked for directly reports its failure.

use crate::address::Address;
use crate::aggregator::{AggregatorState, YieldAggregator};
use crate::chain::{Chain, ChainView, Query, Reply};
use crate::defaults::{spec_weth, weth};
use crate::error::Error;
use crate::numeric::{scaled_value, value_at, I256, U256};
use crate::position::{view_of, Position, PositionView, Protocol};
use vstd::prelude::*;

verus! {

impl AggregatorState {
    /// The query that resolves the price of `token`, if the token has a feed.
    pub open spec fn price_query(self, token: Address) -> Option<Query> {
        let feed = self.price_feed(token);
        if feed == Address::spec_zero() {
            None
        } else {
            Some(Query::LatestRoundData { feed })
        }
    }

    /// The price of `token`: the answer of its feed's latest round, read as
    /// an unsigned number bit for bit. `InvalidToken` where the token has no
    /// feed, `CallFailed` where the feed gave no round.
    pub open spec fn token_price(self, token: Address, chain: ChainView) -> Result<U256, Error> {
        match self.price_query(token) {
            None => Err(Error::InvalidToken),
            Some(query) => match chain.reply_to(query) {
                Reply::RoundData { answer } => Ok(answer.bits),
                _ => Err(Error::CallFailed),
            },
        }
    }

    /// The price that the lending adapter values collateral at: the price of
    /// the reference asset, and zero where that price cannot be had.
    pub open spec fn collateral_price(self, chain: ChainView) -> nat {
        match self.token_price(spec_weth(), chain) {
            Ok(price) => price@,
            Err(_) => 0,
        }
    }

    /// The lending adapter's query for an owner.
    pub open spec fn reserve_query(self, owner: Address) -> Query {
        Query::UserReserveData {
            provider: self.aave_pool_data_provider,
            asset: spec_weth(),
            user: owner,
        }
    }

    /// The owner's collateral balance in the lending market, as far as the
    /// chain tells: zero where the query gave no reserve data.
    pub open spec fn collateral_balance(self, owner: Address, chain: ChainView) -> nat {
        match chain.reply_to(self.reserve_query(owner)) {
            Reply::ReserveData { a_token_balance, liquidity_rate } => a_token_balance@,
            _ => 0,
        }
    }

    /// The owner's position in the lending market.
    pub open spec fn aave_position(self, owner: Address, chain: ChainView) -> Option<Position> {
        match chain.reply_to(self.reserve_query(owner)) {
            Reply::ReserveData { a_token_balance, liquidity_rate } => if a_token_balance@ > 0 {
                Some(
                    Position {
                        owner,
                        protocol: Protocol::Lending,
                        assets: seq![spec_weth()],
                        amounts: seq![a_token_balance@],
                        apr: liquidity_rate@,
                        apy: liquidity_rate@,
                        accrued_usd: scaled_value(
                            a_token_balance@,
                            self.collateral_price(chain),
                        ) as int,
                        updated_at: chain.timestamp as nat,
                    },
                )
            } else {
                None
            },
            _ => None,
        }
    }

    /// The concentrated-liquidity adapter's query for an owner.
    pub open spec fn uniswap_query(self, owner: Address) -> Query {
        Query::BalanceOf { token: self.uniswap_position_manager, owner }
    }

    /// The owner's position in the concentrated-liquidity AMM: a placeholder
    /// that says no more than that the owner holds position tokens.
    pub open spec fn uniswap_position(self, owner: Address, chain: ChainView) -> Option<Position> {
        match chain.reply_to(self.uniswap_query(owner)) {
            Reply::Amount(count) => if count@ > 0 {
                Some(
                    Position {
                        owner,
                        protocol: Protocol::ConcentratedAmm,
                        assets: seq![Address::spec_zero(), Address::spec_zero()],
                        amounts: seq![0nat, 0nat],
                        apr: 0,
                        apy: 0,
                        accrued_usd: 0,
                        updated_at: chain.timestamp as nat,
                    },
                )
            } else {
                None
            },
            _ => None,
        }
    }

    /// The stableswap adapter's first query for an owner: the owner's share
    /// of the pool.
    pub open spec fn curve_query(self, owner: Address) -> Query {
        Query::BalanceOf { token: self.curve_tricrypto_pool, owner }
    }

    /// The stableswap adapter's second query: the pool's virtual price.
    pub open spec fn virtual_price_query(self) -> Query {
        Query::VirtualPrice { pool: self.curve_tricrypto_pool }
    }

    /// The owner's position in the stableswap pool.
    pub open spec fn curve_position(self, owner: Address, chain: ChainView) -> Option<Position> {
        match chain.reply_to(self.curve_query(owner)) {
            Reply::Amount(balance) => if balance@ > 0 {
                match chain.reply_to(self.virtual_price_query()) {
                    Reply::Amount(virtual_price) => Some(
                        Position {
                            owner,
                            protocol: Protocol::StableAmm,
                            assets: seq![self.curve_tricrypto_pool],
                            amounts: seq![balance@],
                            apr: 0,
                            apy: 0,
                            accrued_usd: scaled_value(balance@, virtual_price@) as int,
                            updated_at: chain.timestamp as nat,
                        },
                    ),
                    _ => None,
                }
            } else {
                None
            },
            _ => None,
        }
    }
}

/// An adapter finds a position for an owner if and only if the owner's
/// balance in its venue came back above zero; the stableswap adapter needs
/// the pool's virtual price on top. A position that is found names the owner
/// and the venue, and has one amount for each asset.
pub proof fn lemma_position_needs_balance(state: AggregatorState, owner: Address, chain: ChainView)
    ensures
        state.aave_position(owner, chain) is Some <==> state.collateral_balance(owner, chain) > 0,
        state.uniswap_position(owner, chain) is Some <==> (chain.reply_to(
            state.uniswap_query(owner),
        ) matches Reply::Amount(count) && count@ > 0),
        state.curve_position(owner, chain) is Some <==> (chain.reply_to(
            state.curve_query(owner),
        ) matches Reply::Amount(balance) && balance@ > 0 && chain.reply_to(
            state.virtual_price_query(),
        ) is Amount),
        state.aave_position(owner, chain) matches Some(p) ==> p.owner == owner && p.protocol
            == Protocol::Lending && p.aligned(),
        state.uniswap_position(owner, chain) matches Some(p) ==> p.owner == owner && p.protocol
            == Protocol::ConcentratedAmm && p.aligned(),
        state.curve_position(owner, chain) matches Some(p) ==> p.owner == owner && p.protocol
            == Protocol::StableAmm && p.aligned(),
{
}

/// Registering a feed for a token a second time replaces the first. When the
/// owner registers `first` and then `second` for `token`, both calls succeed;
/// the token's feed is then `second`, its price is the answer of `second` and
/// of no other feed, and every other token has the feed it had.
pub proof fn lemma_price_feed_overwrite(
    state: AggregatorState,
    token: Address,
    first: Address,
    second: Address,
    chain: ChainView,
)
    ensures
        state.set_price_feed(state.owner, token, first) == Ok::<AggregatorState, Error>(
            state.registered(token, first),
        ),
        state.registered(token, first).set_price_feed(state.owner, token, second) == Ok::<
            AggregatorState,
            Error,
        >(state.registered(token, first).registered(token, second)),
        ({
            let twice = state.registered(token, first).registered(token, second);
            &&& twice.price_feed(token) == second
            &&& twice.token_price(token, chain) == state.registered(token, second).token_price(
                token,
                chain,
            )
            &&& second != Address::spec_zero() ==> twice.price_query(token) == Some(
                Query::LatestRoundData { feed: second },
            )
            &&& forall|other: Address|
                other != token ==> #[trigger] twice.price_feed(other) == state.price_feed(other)
        }),
{
}

impl YieldAggregator {
    /// Resolves the price of `token` from its registered feed.
    ///
    /// Fails with `InvalidToken` where no feed is registered, and with
    /// `CallFailed` where the feed's latest round could not be had. The
    /// round's age is not looked at.
    pub fn get_token_price(&self, token: Address, chain: &Chain) -> (r: Result<U256, Error>)
        ensures
            r == self@.token_price(token, chain@),
            r == Err::<U256, Error>(Error::InvalidToken) <==> self@.price_feed(token)
                == Address::spec_zero(),
    {
        let feed = self.price_feed(token);
        if feed.is_zero() {
            return Err(Error::InvalidToken);
        }
        match chain.reply_to(&Query::LatestRoundData { feed }) {
            Reply::RoundData { answer } => Ok(answer.into_raw()),
            _ => Err(Error::CallFailed),
        }
    }

    /// The owner's position in the lending market.
    ///
    /// There is one if and only if the reserve data came back with a
    /// collateral balance above zero. Its value is
    /// `balance * price / 10^18` at the price of the reference asset, or
    /// zero where that price cannot be had; rate and yield are both the
    /// market's liquidity rate as it came.
    pub fn get_aave_positions(&self, owner: Address, chain: &Chain) -> (r: Option<PositionView>)
        ensures
            view_of(r) == self@.aave_position(owner, chain@),
            r is Some <==> self@.collateral_balance(owner, chain@) > 0,
            r matches Some(p) ==> p@.aligned() && p@.accrued_usd >= 0,
    {
        let asset = weth();
        let query = Query::UserReserveData {
            provider: self.aave_pool_data_provider(),
            asset,
            user: owner,
        };
        match chain.reply_to(&query) {
            Reply::ReserveData { a_token_balance, liquidity_rate } => {
                if !a_token_balance.is_zero() {
                    let price = match self.get_token_price(asset, chain) {
                        Ok(price) => price,
                        Err(_) => U256::zero(),
                    };
                    let value = value_at(a_token_balance, price);
                    let mut assets: Vec<Address> = Vec::new();
                    assets.push(asset);
                    let mut amounts: Vec<U256> = Vec::new();
                    amounts.push(a_token_balance);
                    let position = PositionView {
                        owner,
                        protocol: Protocol::Lending,
                        assets,
                        amounts,
                        apr: liquidity_rate,
                        apy: liquidity_rate,
                        accrued_usd: I256::from_raw(value),
                        updated_at: U256::from_u64(chain.timestamp()),
                    };
                    proof {
                        assert(position@.assets =~= seq![spec_weth()]);
                        assert(position@.amounts =~= seq![a_token_balance@]);
                    }
                    return Some(position);
                }
                None
            },
            _ => None,
        }
    }

    /// The owner's position in the concentrated-liquidity AMM.
    ///
    /// There is one if and only if the owner's balance of position tokens
    /// came back above zero. It is a placeholder: two unnamed assets, zero
    /// amounts, zero rates and zero value.
    pub fn get_uniswap_positions(&self, owner: Address, chain: &Chain) -> (r: Option<
        PositionView,
    >)
        ensures
            view_of(r) == self@.uniswap_position(owner, chain@),
            r is Some <==> (chain@.reply_to(self@.uniswap_query(owner)) matches Reply::Amount(count)
                && count@ > 0),
            r matches Some(p) ==> p@.aligned() && p@.accrued_usd == 0,
    {
        let query = Query::BalanceOf { token: self.uniswap_position_manager(), owner };
        match chain.reply_to(&query) {
            Reply::Amount(count) => {
                if !count.is_zero() {
                    let mut assets: Vec<Address> = Vec::new();
                    assets.push(Address::zero());
                    assets.push(Address::zero());
                    let mut amounts: Vec<U256> = Vec::new();
                    amounts.push(U256::zero());
                    amounts.push(U256::zero());
                    let position = PositionView {
                        owner,
                        protocol: Protocol::ConcentratedAmm,
                        assets,
                        amounts,
                        apr: U256::zero(),
                        apy: U256::zero(),
                        accrued_usd: I256::from_raw(U256::zero()),
                        updated_at: U256::from_u64(chain.timestamp()),
                    };
                    proof {
                        assert(position@.assets =~= seq![
                            Address::spec_zero(),
                            Address::spec_zero(),
                        ]);
                        assert(position@.amounts =~= seq![0nat, 0nat]);
                    }
                    return Some(position);
                }
                None
            },
            _ => None,
        }
    }

    /// The owner's position in the stableswap pool.
    ///
    /// There is one if and only if the owner's share of the pool came back
    /// above zero and the pool's virtual price could be had. Its value is
    /// `share * virtual price / 10^18`; no rate is computed.
    pub fn get_curve_positions(&self, owner: Address, chain: &Chain) -> (r: Option<PositionView>)
        ensures
            view_of(r) == self@.curve_position(owner, chain@),
            r is Some <==> (chain@.reply_to(self@.curve_query(owner)) matches Reply::Amount(balance)
                && balance@ > 0 && chain@.reply_to(self@.virtual_price_query()) is Amount),
            r matches Some(p) ==> p@.aligned() && p@.accrued_usd >= 0,
    {
        let pool = self.curve_tricrypto_pool();
        match chain.reply_to(&Query::BalanceOf { token: pool, owner }) {
            Reply::Amount(balance) => {
                if !balance.is_zero() {
                    match chain.reply_to(&Query::VirtualPrice { pool }) {
                        Reply::Amount(virtual_price) => {
                            let value = value_at(balance, virtual_price);
                            let mut assets: Vec<Address> = Vec::new();
                            assets.push(pool);
                            let mut amounts: Vec<U256> = Vec::new();
                            amounts.push(balance);
                            let position = PositionView {
                                owner,
                                protocol: Protocol::StableAmm,
                                assets,
                                amounts,
                                apr: U256::zero(),
                                apy: U256::zero(),
                                accrued_usd: I256::from_raw(value),
                                updated_at: U256::from_u64(chain.timestamp()),
                            };
                            proof {
                                assert(position@.assets =~= seq![pool]);
                                assert(position@.amounts =~= seq![balance@]);
                            }
                            return Some(position);
                        },
                        _ => {
                            return None;
                        },
                    }
                }
                None
            },
            _ => None,
        }
    }
}

} // verus!
