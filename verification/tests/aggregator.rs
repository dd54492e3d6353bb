use yield_aggregator::address::Address;
use yield_aggregator::aggregator::YieldAggregator;
use yield_aggregator::chain::{Chain, Query, Reply};
use yield_aggregator::defaults::{usdc, usdc_usd_feed, weth, weth_usd_feed};
use yield_aggregator::error::Error;
use yield_aggregator::numeric::{I256, U256};
use yield_aggregator::ownable;
use yield_aggregator::ownable::{Ownable, OwnableInvalidOwner, OwnableUnauthorizedAccount};

fn account(byte: u8) -> Address {
    Address::from_slice(&[byte; 20])
}

fn deployed(owner: Address) -> YieldAggregator {
    let mut contract = YieldAggregator::new();
    assert_eq!(contract.constructor(owner), Ok(()));
    contract
}

fn unauthorized(caller: Address) -> Error {
    Error::UnauthorizedAccount(OwnableUnauthorizedAccount { account: caller })
}

fn address_of(text: &str) -> Address {
    Address::from_slice(&hex::decode(text).unwrap())
}

#[test]
fn test_yield_aggregator() {
    let chain = Chain::new(1_700_000_000);
    let mut contract = YieldAggregator::new();

    // Test initialization
    let owner_addr = Address::from([1u8; 20]);
    let _ = contract.constructor(owner_addr);

    assert_eq!(contract.owner(), owner_addr);
    assert_eq!(contract.enabled(), true);

    // Test getting positions for empty user
    let test_user = Address::from([2u8; 20]);
    let positions = contract.get_positions(test_user, &chain);
    assert_eq!(positions.len(), 0);

    // Test portfolio summary for empty user
    let summary = contract.get_portfolio_summary(test_user, &chain);
    assert_eq!(summary.total_value, U256::zero());
    assert_eq!(summary.total_accrued, U256::zero());
    assert_eq!(summary.weighted_apy, U256::zero());
}

#[test]
fn new_engine_is_blank_and_switched_off() {
    let contract = YieldAggregator::new();
    assert_eq!(contract.owner(), Address::zero());
    assert!(!contract.enabled());
    assert_eq!(contract.aave_pool_data_provider(), Address::zero());
    assert_eq!(contract.uniswap_position_manager(), Address::zero());
    assert_eq!(contract.curve_tricrypto_pool(), Address::zero());
    assert_eq!(contract.curve_tricrypto_gauge(), Address::zero());
    assert_eq!(contract.cache_duration(), U256::zero());
    assert_eq!(contract.price_feed(weth()), Address::zero());
}

#[test]
fn constructor_sets_the_built_in_configuration() {
    let owner = account(1);
    let contract = deployed(owner);
    assert_eq!(contract.owner(), owner);
    assert!(contract.enabled());
    assert_eq!(contract.cache_duration(), U256::from_u64(30));
    assert_eq!(
        contract.aave_pool_data_provider(),
        address_of("145dE30c929a065582Bfc8e9C1a8B0b8C3c3b5C3")
    );
    assert_eq!(
        contract.uniswap_position_manager(),
        address_of("C36442b4a4522E871399CD717aBDD847Ab11FE88")
    );
    assert_eq!(
        contract.curve_tricrypto_pool(),
        address_of("960ea3e3C7FB317332d990873d354E18d7645590")
    );
    assert_eq!(
        contract.curve_tricrypto_gauge(),
        address_of("97E2768e8E73511cA874545DC5Ff8067eB19B787")
    );
    assert_eq!(
        contract.price_feed(address_of("82aF49447D8a07e3bd95BD0d56f35241523fBab1")),
        address_of("639Fe6ab55C921f74e7fac1ee960C0b6293ba612")
    );
    assert_eq!(
        contract.price_feed(address_of("af88d065e77c8cC2239327C5EDb3A432268e5831")),
        address_of("50834F3163758fcC1Df9973b6e91f0F0F0434aD3")
    );
    assert_eq!(contract.price_feed(account(9)), Address::zero());
}

#[test]
fn built_in_addresses_are_the_ones_written() {
    assert_eq!(weth(), address_of("82aF49447D8a07e3bd95BD0d56f35241523fBab1"));
    assert_eq!(weth(), Address { hi: 0x82af4944, lo: 0x7d8a07e3bd95bd0d56f35241523fbab1 });
    assert_eq!(weth_usd_feed(), address_of("639Fe6ab55C921f74e7fac1ee960C0b6293ba612"));
    assert_eq!(usdc(), address_of("af88d065e77c8cC2239327C5EDb3A432268e5831"));
    assert_eq!(usdc_usd_feed(), address_of("50834F3163758fcC1Df9973b6e91f0F0F0434aD3"));
    assert_eq!(
        weth().to_vec(),
        vec![
            0x82, 0xaf, 0x49, 0x44, 0x7d, 0x8a, 0x07, 0xe3, 0xbd, 0x95, 0xbd, 0x0d, 0x56, 0xf3,
            0x52, 0x41, 0x52, 0x3f, 0xba, 0xb1
        ]
    );
}

#[test]
fn constructor_registers_feeds_whoever_deploys() {
    // The built-in feeds are in place for any first owner.
    let contract = deployed(account(0x77));
    assert_eq!(contract.price_feed(weth()), weth_usd_feed());
    assert_eq!(contract.price_feed(usdc()), usdc_usd_feed());
}

#[test]
fn constructor_refuses_the_zero_owner() {
    let mut contract = YieldAggregator::new();
    let result = contract.constructor(Address::zero());
    assert_eq!(
        result,
        Err(Error::InvalidOwner(OwnableInvalidOwner { owner: Address::zero() }))
    );
    assert_eq!(contract.owner(), Address::zero());
    assert!(!contract.enabled());
    assert_eq!(contract.aave_pool_data_provider(), Address::zero());
    assert_eq!(contract.price_feed(weth()), Address::zero());
    assert_eq!(contract.cache_duration(), U256::zero());
}

#[test]
fn set_enabled_by_a_stranger_is_refused() {
    let owner = account(1);
    let stranger = account(3);
    let mut contract = deployed(owner);
    assert_eq!(contract.set_enabled(stranger, false), Err(unauthorized(stranger)));
    assert!(contract.enabled());
}

#[test]
fn set_enabled_by_the_owner_switches() {
    let owner = account(1);
    let mut contract = deployed(owner);
    assert_eq!(contract.set_enabled(owner, false), Ok(()));
    assert!(!contract.enabled());
    assert_eq!(contract.set_enabled(owner, true), Ok(()));
    assert!(contract.enabled());
}

#[test]
fn every_write_by_a_stranger_is_refused_and_changes_nothing() {
    let owner = account(1);
    let stranger = account(3);
    let mut contract = deployed(owner);

    assert_eq!(
        contract.set_price_feed(stranger, weth(), account(8)),
        Err(unauthorized(stranger))
    );
    assert_eq!(
        contract.set_price_feed(stranger, account(7), account(8)),
        Err(unauthorized(stranger))
    );
    assert_eq!(
        contract.set_protocol_addresses(stranger, account(4), account(5), account(6), account(7)),
        Err(unauthorized(stranger))
    );
    assert_eq!(contract.set_enabled(stranger, false), Err(unauthorized(stranger)));
    assert_eq!(contract.transfer_ownership(stranger, stranger), Err(unauthorized(stranger)));
    assert_eq!(
        contract.transfer_ownership(stranger, Address::zero()),
        Err(unauthorized(stranger))
    );
    assert_eq!(contract.renounce_ownership(stranger), Err(unauthorized(stranger)));

    let fresh = deployed(owner);
    assert_eq!(contract.owner(), fresh.owner());
    assert_eq!(contract.enabled(), fresh.enabled());
    assert_eq!(contract.aave_pool_data_provider(), fresh.aave_pool_data_provider());
    assert_eq!(contract.uniswap_position_manager(), fresh.uniswap_position_manager());
    assert_eq!(contract.curve_tricrypto_pool(), fresh.curve_tricrypto_pool());
    assert_eq!(contract.curve_tricrypto_gauge(), fresh.curve_tricrypto_gauge());
    assert_eq!(contract.cache_duration(), fresh.cache_duration());
    assert_eq!(contract.price_feed(weth()), weth_usd_feed());
    assert_eq!(contract.price_feed(usdc()), usdc_usd_feed());
    assert_eq!(contract.price_feed(account(7)), Address::zero());
}

#[test]
fn set_protocol_addresses_replaces_all_four() {
    let owner = account(1);
    let mut contract = deployed(owner);
    assert_eq!(
        contract.set_protocol_addresses(owner, account(4), account(5), account(6), account(7)),
        Ok(())
    );
    assert_eq!(contract.aave_pool_data_provider(), account(4));
    assert_eq!(contract.uniswap_position_manager(), account(5));
    assert_eq!(contract.curve_tricrypto_pool(), account(6));
    assert_eq!(contract.curve_tricrypto_gauge(), account(7));
    assert_eq!(contract.owner(), owner);
    assert!(contract.enabled());
    assert_eq!(contract.price_feed(weth()), weth_usd_feed());
}

#[test]
fn set_price_feed_registers_and_overwrites() {
    let owner = account(1);
    let token = account(0x10);
    let feed_a = account(0xa0);
    let feed_b = account(0xb0);
    let mut contract = deployed(owner);

    assert_eq!(contract.set_price_feed(owner, token, feed_a), Ok(()));
    assert_eq!(contract.price_feed(token), feed_a);
    assert_eq!(contract.set_price_feed(owner, token, feed_b), Ok(()));
    assert_eq!(contract.price_feed(token), feed_b);
    assert_eq!(contract.price_feed(weth()), weth_usd_feed());

    let mut chain = Chain::new(5);
    chain.record(
        Query::LatestRoundData { feed: feed_a },
        Reply::RoundData { answer: I256::from_raw(U256::from_u64(111)) },
    );
    chain.record(
        Query::LatestRoundData { feed: feed_b },
        Reply::RoundData { answer: I256::from_raw(U256::from_u64(222)) },
    );
    assert_eq!(contract.get_token_price(token, &chain), Ok(U256::from_u64(222)));
}

#[test]
fn set_price_feed_to_zero_leaves_the_token_without_a_feed() {
    let owner = account(1);
    let mut contract = deployed(owner);
    assert_eq!(contract.set_price_feed(owner, weth(), Address::zero()), Ok(()));
    assert_eq!(contract.price_feed(weth()), Address::zero());
    assert_eq!(contract.get_token_price(weth(), &Chain::new(0)), Err(Error::InvalidToken));
}

#[test]
fn transfer_ownership_hands_the_engine_on() {
    let owner = account(1);
    let heir = account(2);
    let mut contract = deployed(owner);
    assert_eq!(contract.transfer_ownership(owner, heir), Ok(()));
    assert_eq!(contract.owner(), heir);
    assert_eq!(contract.set_enabled(owner, false), Err(unauthorized(owner)));
    assert_eq!(contract.set_enabled(heir, false), Ok(()));
    assert!(!contract.enabled());
}

#[test]
fn transfer_ownership_to_nobody_is_refused() {
    let owner = account(1);
    let mut contract = deployed(owner);
    assert_eq!(
        contract.transfer_ownership(owner, Address::zero()),
        Err(Error::InvalidOwner(OwnableInvalidOwner { owner: Address::zero() }))
    );
    assert_eq!(contract.owner(), owner);
}

#[test]
fn renounce_ownership_leaves_no_owner() {
    let owner = account(1);
    let mut contract = deployed(owner);
    assert_eq!(contract.renounce_ownership(owner), Ok(()));
    assert_eq!(contract.owner(), Address::zero());
    assert_eq!(contract.set_enabled(owner, false), Err(unauthorized(owner)));
    assert!(contract.enabled());
}

#[test]
fn ownable_follows_its_rules() {
    let mut ownable = Ownable::unowned();
    assert_eq!(ownable.owner(), Address::zero());
    assert_eq!(
        ownable.constructor(Address::zero()),
        Err(ownable::Error::InvalidOwner(OwnableInvalidOwner { owner: Address::zero() }))
    );
    assert_eq!(ownable.constructor(account(1)), Ok(()));
    assert_eq!(ownable.owner(), account(1));
    assert_eq!(ownable.only_owner(account(1)), Ok(()));
    assert_eq!(
        ownable.only_owner(account(2)),
        Err(ownable::Error::UnauthorizedAccount(OwnableUnauthorizedAccount {
            account: account(2)
        }))
    );
    assert_eq!(
        ownable.transfer_ownership(account(2), account(2)),
        Err(ownable::Error::UnauthorizedAccount(OwnableUnauthorizedAccount {
            account: account(2)
        }))
    );
    assert_eq!(
        ownable.transfer_ownership(account(1), Address::zero()),
        Err(ownable::Error::InvalidOwner(OwnableInvalidOwner { owner: Address::zero() }))
    );
    assert_eq!(ownable.owner(), account(1));
    assert_eq!(ownable.transfer_ownership(account(1), account(2)), Ok(()));
    assert_eq!(ownable.owner(), account(2));
    assert_eq!(
        ownable.renounce_ownership(account(1)),
        Err(ownable::Error::UnauthorizedAccount(OwnableUnauthorizedAccount {
            account: account(1)
        }))
    );
    assert_eq!(ownable.renounce_ownership(account(2)), Ok(()));
    assert_eq!(ownable.owner(), Address::zero());
}

#[test]
fn ownership_errors_map_onto_engine_errors() {
    let unauthorized_account = OwnableUnauthorizedAccount { account: account(5) };
    let invalid_owner = OwnableInvalidOwner { owner: Address::zero() };
    assert_eq!(
        Error::from(ownable::Error::UnauthorizedAccount(unauthorized_account)),
        Error::UnauthorizedAccount(unauthorized_account)
    );
    assert_eq!(
        Error::from(ownable::Error::InvalidOwner(invalid_owner)),
        Error::InvalidOwner(invalid_owner)
    );
    assert_ne!(Error::InvalidProtocol, Error::InvalidToken);
    assert_ne!(Error::InvalidToken, Error::CallFailed);
}
