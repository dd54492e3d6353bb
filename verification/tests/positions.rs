use yield_aggregator::address::Address;
use yield_aggregator::aggregator::YieldAggregator;
use yield_aggregator::chain::{Chain, Query, Reply};
use yield_aggregator::defaults::{
    default_aave_pool_data_provider, default_curve_tricrypto_pool,
    default_uniswap_position_manager, weth, weth_usd_feed,
};
use yield_aggregator::error::Error;
use yield_aggregator::numeric::{I256, U256};
use yield_aggregator::position::{PortfolioSummary, PositionView, Protocol};

const NOW: u64 = 1_700_000_000;
const RATE: u64 = 50_000_000_000_000_000;
const PRICE: u64 = 2000_00000000;

fn who(byte: u8) -> Address {
    Address::from_slice(&[byte; 20])
}

fn engine() -> YieldAggregator {
    let mut contract = YieldAggregator::new();
    assert_eq!(contract.constructor(who(1)), Ok(()));
    contract
}

fn amount(value: u64) -> Reply {
    Reply::Amount(U256::from_u64(value))
}

fn reserve_query(user: Address) -> Query {
    Query::UserReserveData { provider: default_aave_pool_data_provider(), asset: weth(), user }
}

fn reserve(balance: u64, rate: u64) -> Reply {
    Reply::ReserveData {
        a_token_balance: U256::from_u64(balance),
        liquidity_rate: U256::from_u64(rate),
    }
}

fn round_query() -> Query {
    Query::LatestRoundData { feed: weth_usd_feed() }
}

fn round(answer: u64) -> Reply {
    Reply::RoundData { answer: I256::from_raw(U256::from_u64(answer)) }
}

fn count_query(owner: Address) -> Query {
    Query::BalanceOf { token: default_uniswap_position_manager(), owner }
}

fn share_query(owner: Address) -> Query {
    Query::BalanceOf { token: default_curve_tricrypto_pool(), owner }
}

fn virtual_price_query() -> Query {
    Query::VirtualPrice { pool: default_curve_tricrypto_pool() }
}

/// A world in which `holder` has `balance` of collateral and nobody holds
/// anything else.
fn lending_world(holder: Address, balance: u64) -> impl Fn(&Query) -> Reply {
    move |query: &Query| match *query {
        Query::UserReserveData { user, .. } if user == holder => reserve(balance, RATE),
        Query::UserReserveData { .. } => reserve(0, RATE),
        Query::LatestRoundData { feed } if feed == weth_usd_feed() => round(PRICE),
        Query::LatestRoundData { .. } => Reply::Failed,
        Query::BalanceOf { .. } => amount(0),
        Query::VirtualPrice { .. } => amount(1_000_000_000_000_000_000),
    }
}

/// Answers a read the way a caller does: asks the engine for the next query,
/// performs it, records the reply, until the engine asks for nothing more.
fn gather(
    contract: &YieldAggregator,
    owners: &Vec<Address>,
    world: &dyn Fn(&Query) -> Reply,
) -> (Chain, Vec<Query>) {
    let mut chain = Chain::new(NOW);
    let mut asked = Vec::new();
    while let Some(query) = contract.next_query(owners, &chain) {
        assert!(!chain.knows(&query));
        chain.record(query, world(&query));
        asked.push(query);
        assert!(asked.len() < 100);
    }
    (chain, asked)
}

fn lending_position(owner: Address, balance: u64, value: u64) -> PositionView {
    PositionView {
        owner,
        protocol: Protocol::Lending,
        assets: vec![weth()],
        amounts: vec![U256::from_u64(balance)],
        apr: U256::from_u64(RATE),
        apy: U256::from_u64(RATE),
        accrued_usd: I256::from_raw(U256::from_u64(value)),
        updated_at: U256::from_u64(NOW),
    }
}

#[test]
fn fresh_deployment_finds_nothing_for_an_owner_without_balances() {
    let contract = engine();
    let user = who(2);
    let (chain, asked) = gather(&contract, &vec![user], &lending_world(who(9), 5));
    assert_eq!(asked, vec![reserve_query(user), count_query(user), share_query(user)]);
    assert_eq!(contract.get_positions(user, &chain), vec![]);
    let summary = contract.get_portfolio_summary(user, &chain);
    assert_eq!(
        summary,
        PortfolioSummary {
            total_value: U256::zero(),
            total_accrued: U256::zero(),
            weighted_apy: U256::zero(),
            last_updated: U256::from_u64(NOW),
        }
    );
}

#[test]
fn lending_position_of_the_example() {
    let contract = engine();
    let user = who(2);
    let mut chain = Chain::new(NOW);
    chain.record(reserve_query(user), reserve(1000, RATE));
    chain.record(round_query(), round(PRICE));
    let position = contract.get_aave_positions(user, &chain).unwrap();
    assert_eq!(position.apy, U256::from_u64(50_000_000_000_000_000));
    assert_eq!(position.apr, U256::from_u64(50_000_000_000_000_000));
    // 1000 * 200000000000 / 10^18 rounds down to zero
    assert_eq!(position.accrued_usd, I256::from_raw(U256::zero()));
    assert_eq!(position, lending_position(user, 1000, 0));
}

#[test]
fn lending_position_is_valued_at_the_feed_price() {
    let contract = engine();
    let user = who(2);
    let mut chain = Chain::new(NOW);
    // 2.5 units at 2000.00000000 are worth 5000.00000000
    chain.record(reserve_query(user), reserve(2_500_000_000_000_000_000, RATE));
    chain.record(round_query(), round(PRICE));
    let position = contract.get_aave_positions(user, &chain).unwrap();
    assert_eq!(position, lending_position(user, 2_500_000_000_000_000_000, 5000_00000000));
    assert_eq!(position.assets.len(), position.amounts.len());
}

#[test]
fn lending_position_needs_a_balance_above_zero() {
    let contract = engine();
    let user = who(2);
    let mut chain = Chain::new(NOW);
    chain.record(round_query(), round(PRICE));
    assert_eq!(contract.get_aave_positions(user, &chain), None);
    chain.record(reserve_query(user), reserve(0, RATE));
    assert_eq!(contract.get_aave_positions(user, &chain), None);
    chain.record(reserve_query(user), Reply::Failed);
    assert_eq!(contract.get_aave_positions(user, &chain), None);
    chain.record(reserve_query(user), amount(5));
    assert_eq!(contract.get_aave_positions(user, &chain), None);
    chain.record(reserve_query(user), reserve(1, RATE));
    assert_eq!(contract.get_aave_positions(user, &chain), Some(lending_position(user, 1, 0)));
    // another user's balance does not count
    assert_eq!(contract.get_aave_positions(who(3), &chain), None);
}

#[test]
fn lending_position_without_a_price_is_worth_nothing() {
    let mut contract = engine();
    let user = who(2);
    let balance = 3_000_000_000_000_000_000;
    let mut chain = Chain::new(NOW);
    chain.record(reserve_query(user), reserve(balance, RATE));
    // the feed was not asked
    assert_eq!(
        contract.get_aave_positions(user, &chain),
        Some(lending_position(user, balance, 0))
    );
    // the feed failed
    chain.record(round_query(), Reply::Failed);
    assert_eq!(
        contract.get_aave_positions(user, &chain),
        Some(lending_position(user, balance, 0))
    );
    // the feed answered
    chain.record(round_query(), round(PRICE));
    assert_eq!(
        contract.get_aave_positions(user, &chain),
        Some(lending_position(user, balance, 6000_00000000))
    );
    // the reference asset has no feed any more
    assert_eq!(contract.set_price_feed(who(1), weth(), Address::zero()), Ok(()));
    assert_eq!(
        contract.get_aave_positions(user, &chain),
        Some(lending_position(user, balance, 0))
    );
}

#[test]
fn lending_value_wraps_at_256_bits() {
    let contract = engine();
    let user = who(2);
    // (2^255 + 5 * 10^17) * 2 wraps to 10^18, which is worth 1
    let balance = U256::from_limbs([500_000_000_000_000_000, 0, 0, 0x8000_0000_0000_0000]);
    let mut chain = Chain::new(NOW);
    chain.record(
        reserve_query(user),
        Reply::ReserveData { a_token_balance: balance, liquidity_rate: U256::zero() },
    );
    chain.record(round_query(), round(2));
    let position = contract.get_aave_positions(user, &chain).unwrap();
    assert_eq!(position.accrued_usd, I256::from_raw(U256::from_u64(1)));
    assert_eq!(position.amounts, vec![balance]);
    assert!(!position.accrued_usd.is_negative());
}

#[test]
fn concentrated_position_is_a_placeholder() {
    let contract = engine();
    let user = who(2);
    let mut chain = Chain::new(NOW);
    assert_eq!(contract.get_uniswap_positions(user, &chain), None);
    chain.record(count_query(user), amount(0));
    assert_eq!(contract.get_uniswap_positions(user, &chain), None);
    chain.record(count_query(user), Reply::Failed);
    assert_eq!(contract.get_uniswap_positions(user, &chain), None);
    chain.record(count_query(user), amount(3));
    assert_eq!(
        contract.get_uniswap_positions(user, &chain),
        Some(PositionView {
            owner: user,
            protocol: Protocol::ConcentratedAmm,
            assets: vec![Address::zero(), Address::zero()],
            amounts: vec![U256::zero(), U256::zero()],
            apr: U256::zero(),
            apy: U256::zero(),
            accrued_usd: I256::from_raw(U256::zero()),
            updated_at: U256::from_u64(NOW),
        })
    );
    assert_eq!(contract.get_uniswap_positions(who(3), &chain), None);
}

#[test]
fn stable_position_is_valued_at_the_virtual_price() {
    let contract = engine();
    let user = who(2);
    let mut chain = Chain::new(NOW);
    // 40 shares at a virtual price of 1.05 are worth 42
    chain.record(share_query(user), amount(40));
    chain.record(virtual_price_query(), amount(1_050_000_000_000_000_000));
    assert_eq!(
        contract.get_curve_positions(user, &chain),
        Some(PositionView {
            owner: user,
            protocol: Protocol::StableAmm,
            assets: vec![default_curve_tricrypto_pool()],
            amounts: vec![U256::from_u64(40)],
            apr: U256::zero(),
            apy: U256::zero(),
            accrued_usd: I256::from_raw(U256::from_u64(42)),
            updated_at: U256::from_u64(NOW),
        })
    );
}

#[test]
fn stable_position_needs_a_share_and_a_virtual_price() {
    let contract = engine();
    let user = who(2);
    let mut chain = Chain::new(NOW);
    chain.record(virtual_price_query(), amount(1_000_000_000_000_000_000));
    assert_eq!(contract.get_curve_positions(user, &chain), None);
    chain.record(share_query(user), amount(0));
    assert_eq!(contract.get_curve_positions(user, &chain), None);
    chain.record(share_query(user), Reply::Failed);
    assert_eq!(contract.get_curve_positions(user, &chain), None);
    chain.record(share_query(user), amount(7));
    assert!(contract.get_curve_positions(user, &chain).is_some());
    chain.record(virtual_price_query(), Reply::Failed);
    assert_eq!(contract.get_curve_positions(user, &chain), None);
    chain.record(virtual_price_query(), round(1));
    assert_eq!(contract.get_curve_positions(user, &chain), None);
}

#[test]
fn token_price_of_an_unregistered_token_is_invalid() {
    let contract = engine();
    let mut chain = Chain::new(NOW);
    chain.record(round_query(), round(PRICE));
    assert_eq!(contract.get_token_price(who(0x55), &chain), Err(Error::InvalidToken));
    assert_eq!(contract.get_token_price(Address::zero(), &chain), Err(Error::InvalidToken));
}

#[test]
fn token_price_reports_a_failed_call() {
    let contract = engine();
    let mut chain = Chain::new(NOW);
    assert_eq!(contract.get_token_price(weth(), &chain), Err(Error::CallFailed));
    chain.record(round_query(), Reply::Failed);
    assert_eq!(contract.get_token_price(weth(), &chain), Err(Error::CallFailed));
    chain.record(round_query(), amount(5));
    assert_eq!(contract.get_token_price(weth(), &chain), Err(Error::CallFailed));
}

#[test]
fn token_price_is_the_answer_bit_for_bit() {
    let contract = engine();
    let mut chain = Chain::new(NOW);
    chain.record(round_query(), round(PRICE));
    assert_eq!(contract.get_token_price(weth(), &chain), Ok(U256::from_u64(200_000_000_000)));
    let minus_one = U256::from_limbs([u64::MAX; 4]);
    chain.record(round_query(), Reply::RoundData { answer: I256::from_raw(minus_one) });
    assert_eq!(contract.get_token_price(weth(), &chain), Ok(minus_one));
}

#[test]
fn positions_come_in_the_order_of_the_venues() {
    let contract = engine();
    let user = who(2);
    let world = |query: &Query| match *query {
        Query::UserReserveData { .. } => reserve(2_000_000_000_000_000_000, RATE),
        Query::LatestRoundData { .. } => round(PRICE),
        Query::BalanceOf { token, .. } if token == default_uniswap_position_manager() => amount(1),
        Query::BalanceOf { .. } => amount(10),
        Query::VirtualPrice { .. } => amount(1_000_000_000_000_000_000),
    };
    let (chain, asked) = gather(&contract, &vec![user], &world);
    assert_eq!(
        asked,
        vec![
            reserve_query(user),
            round_query(),
            count_query(user),
            share_query(user),
            virtual_price_query()
        ]
    );
    let positions = contract.get_positions(user, &chain);
    assert_eq!(positions.len(), 3);
    assert_eq!(positions[0], lending_position(user, 2_000_000_000_000_000_000, 4000_00000000));
    assert_eq!(positions[1].protocol, Protocol::ConcentratedAmm);
    assert_eq!(positions[2].protocol, Protocol::StableAmm);
    assert_eq!(positions[2].accrued_usd, I256::from_raw(U256::from_u64(10)));
    assert_eq!(positions[0], contract.get_aave_positions(user, &chain).unwrap());
    assert_eq!(positions[1], contract.get_uniswap_positions(user, &chain).unwrap());
    assert_eq!(positions[2], contract.get_curve_positions(user, &chain).unwrap());

    let summary = contract.get_portfolio_summary(user, &chain);
    assert_eq!(summary.total_value, U256::from_u64(4000_00000010));
    assert_eq!(summary.total_accrued, U256::from_u64(4000_00000010));
    // only the lending position has a yield
    assert_eq!(summary.weighted_apy, U256::from_u64(RATE));
    assert_eq!(summary.last_updated, U256::from_u64(NOW));
}

#[test]
fn a_failing_venue_does_not_block_the_others() {
    let contract = engine();
    let user = who(2);
    let world = |query: &Query| match *query {
        Query::UserReserveData { .. } => Reply::Failed,
        Query::LatestRoundData { .. } => Reply::Failed,
        Query::BalanceOf { token, .. } if token == default_uniswap_position_manager() => {
            Reply::Failed
        }
        Query::BalanceOf { .. } => amount(10),
        Query::VirtualPrice { .. } => amount(2_000_000_000_000_000_000),
    };
    let (chain, asked) = gather(&contract, &vec![user], &world);
    assert_eq!(
        asked,
        vec![reserve_query(user), count_query(user), share_query(user), virtual_price_query()]
    );
    let positions = contract.get_positions(user, &chain);
    assert_eq!(positions.len(), 1);
    assert_eq!(positions[0].protocol, Protocol::StableAmm);
    assert_eq!(positions[0].accrued_usd, I256::from_raw(U256::from_u64(20)));
}

#[test]
fn positions_multi_of_a_holder_and_a_bystander() {
    let contract = engine();
    let holder = who(2);
    let bystander = who(3);
    let owners = vec![holder, bystander];
    let (chain, asked) =
        gather(&contract, &owners, &lending_world(holder, 2_000_000_000_000_000_000));
    assert_eq!(
        asked,
        vec![
            reserve_query(holder),
            round_query(),
            count_query(holder),
            share_query(holder),
            reserve_query(bystander),
            count_query(bystander),
            share_query(bystander)
        ]
    );
    let positions = contract.get_positions_multi(owners.clone(), &chain);
    assert_eq!(
        positions,
        vec![lending_position(holder, 2_000_000_000_000_000_000, 4000_00000000)]
    );
    let summary = contract.get_portfolio_summary_multi(owners, &chain);
    assert_eq!(summary.total_value, U256::from_u64(4000_00000000));
    assert_eq!(summary.total_accrued, U256::from_u64(4000_00000000));
    assert_eq!(summary.weighted_apy, U256::from_u64(RATE));
    assert_eq!(summary.last_updated, U256::from_u64(NOW));
}

#[test]
fn positions_multi_keeps_the_order_and_the_repeats_of_the_owners() {
    let contract = engine();
    let first = who(2);
    let second = who(3);
    let world = |query: &Query| match *query {
        Query::UserReserveData { user, .. } if user == who(2) => reserve(11, RATE),
        Query::UserReserveData { .. } => reserve(22, RATE),
        Query::LatestRoundData { .. } => round(PRICE),
        Query::BalanceOf { .. } => amount(0),
        Query::VirtualPrice { .. } => Reply::Failed,
    };
    let owners = vec![second, first, second];
    let (chain, asked) = gather(&contract, &owners, &world);
    // what was asked for an owner is not asked again
    assert_eq!(asked.len(), 7);
    let positions = contract.get_positions_multi(owners, &chain);
    assert_eq!(
        positions,
        vec![
            lending_position(second, 22, 0),
            lending_position(first, 11, 0),
            lending_position(second, 22, 0)
        ]
    );
    assert_eq!(contract.get_positions_multi(vec![], &chain), vec![]);
    assert_eq!(
        contract.get_portfolio_summary_multi(vec![], &chain),
        PortfolioSummary {
            total_value: U256::zero(),
            total_accrued: U256::zero(),
            weighted_apy: U256::zero(),
            last_updated: U256::from_u64(NOW),
        }
    );
}

#[test]
fn a_switched_off_engine_answers_empty_and_asks_nothing() {
    let mut contract = engine();
    let user = who(2);
    let owners = vec![user, who(3)];
    let world = |query: &Query| match *query {
        Query::UserReserveData { .. } => reserve(2_000_000_000_000_000_000, RATE),
        Query::LatestRoundData { .. } => round(PRICE),
        Query::BalanceOf { .. } => amount(10),
        Query::VirtualPrice { .. } => amount(1_000_000_000_000_000_000),
    };
    let (full, asked) = gather(&contract, &owners, &world);
    // five queries for the first owner; the price and the virtual price are
    // known by the time the second owner's turn comes
    assert_eq!(asked.len(), 8);
    assert_eq!(contract.get_positions(user, &full).len(), 3);

    assert_eq!(contract.set_enabled(who(1), false), Ok(()));
    assert_eq!(contract.next_query(&owners, &Chain::new(NOW)), None);
    let (empty, asked) = gather(&contract, &owners, &world);
    assert_eq!(asked, vec![]);
    let zero = PortfolioSummary {
        total_value: U256::zero(),
        total_accrued: U256::zero(),
        weighted_apy: U256::zero(),
        last_updated: U256::zero(),
    };
    for chain in [&empty, &full] {
        assert_eq!(contract.get_positions(user, chain), vec![]);
        assert_eq!(contract.get_positions_multi(owners.clone(), chain), vec![]);
        assert_eq!(contract.get_portfolio_summary(user, chain), zero);
        assert_eq!(contract.get_portfolio_summary_multi(owners.clone(), chain), zero);
    }
    assert_eq!(PortfolioSummary::zero(), zero);

    assert_eq!(contract.set_enabled(who(1), true), Ok(()));
    assert_eq!(contract.get_positions(user, &full).len(), 3);
}

#[test]
fn next_query_follows_the_replies() {
    let contract = engine();
    let user = who(2);
    let mut chain = Chain::new(NOW);
    assert_eq!(contract.next_query_for(user, &chain), Some(reserve_query(user)));
    chain.record(reserve_query(user), reserve(5, RATE));
    assert_eq!(contract.next_query_for(user, &chain), Some(round_query()));
    chain.record(round_query(), Reply::Failed);
    assert_eq!(contract.next_query_for(user, &chain), Some(count_query(user)));
    chain.record(count_query(user), amount(1));
    assert_eq!(contract.next_query_for(user, &chain), Some(share_query(user)));
    chain.record(share_query(user), amount(1));
    assert_eq!(contract.next_query_for(user, &chain), Some(virtual_price_query()));
    chain.record(virtual_price_query(), amount(1));
    assert_eq!(contract.next_query_for(user, &chain), None);
    assert_eq!(contract.next_query(&vec![user], &chain), None);
    assert_eq!(contract.next_query(&vec![user, who(3)], &chain), Some(reserve_query(who(3))));
    assert_eq!(contract.next_query(&vec![], &Chain::new(NOW)), None);
}

#[test]
fn next_query_skips_the_price_of_an_asset_without_a_feed() {
    let mut contract = engine();
    let user = who(2);
    assert_eq!(contract.set_price_feed(who(1), weth(), Address::zero()), Ok(()));
    let mut chain = Chain::new(NOW);
    chain.record(reserve_query(user), reserve(5, RATE));
    assert_eq!(contract.next_query_for(user, &chain), Some(count_query(user)));
}

#[test]
fn queries_go_to_the_configured_addresses() {
    let mut contract = engine();
    let user = who(2);
    let (provider, manager, pool, feed) = (who(0x41), who(0x42), who(0x43), who(0x44));
    assert_eq!(
        contract.set_protocol_addresses(who(1), provider, manager, pool, who(0x45)),
        Ok(())
    );
    assert_eq!(contract.set_price_feed(who(1), weth(), feed), Ok(()));
    let world = |query: &Query| match *query {
        Query::UserReserveData { .. } => reserve(1_000_000_000_000_000_000, RATE),
        Query::LatestRoundData { .. } => round(3),
        Query::BalanceOf { .. } => amount(4),
        Query::VirtualPrice { .. } => amount(1_500_000_000_000_000_000),
    };
    let (chain, asked) = gather(&contract, &vec![user], &world);
    assert_eq!(
        asked,
        vec![
            Query::UserReserveData { provider, asset: weth(), user },
            Query::LatestRoundData { feed },
            Query::BalanceOf { token: manager, owner: user },
            Query::BalanceOf { token: pool, owner: user },
            Query::VirtualPrice { pool }
        ]
    );
    let positions = contract.get_positions(user, &chain);
    assert_eq!(positions.len(), 3);
    assert_eq!(positions[0].accrued_usd, I256::from_raw(U256::from_u64(3)));
    assert_eq!(positions[2].assets, vec![pool]);
    assert_eq!(positions[2].accrued_usd, I256::from_raw(U256::from_u64(6)));
}
