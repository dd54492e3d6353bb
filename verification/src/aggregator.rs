//! The engine's configuration and the operations that change it.
//!
//! Only the owner changes anything. Every operation that writes takes the
//! account that is calling, refuses any account but the owner, and leaves the
//! configuration as it was when it refuses.

use crate::address::Address;
use crate::defaults::{
    default_aave_pool_data_provider, default_curve_tricrypto_gauge, default_curve_tricrypto_pool,
    default_uniswap_position_manager, spec_default_aave_pool_data_provider,
    spec_default_curve_tricrypto_gauge, spec_default_curve_tricrypto_pool,
    spec_default_uniswap_position_manager, spec_usdc, spec_usdc_usd_feed, spec_weth,
    spec_weth_usd_feed, usdc, usdc_usd_feed, weth, weth_usd_feed,
};
use crate::error::Error;
use crate::numeric::U256;
use crate::ownable;
use crate::ownable::Ownable;
use crate::registry::{feed_in, PriceFeeds};
use vstd::prelude::*;

verus! {

/// What a [`YieldAggregator`] holds.
pub struct AggregatorState {
    /// The account that may change the configuration.
    pub owner: Address,
    /// Where the lending adapter asks for reserve data.
    pub aave_pool_data_provider: Address,
    /// Where the concentrated-liquidity adapter asks for balances.
    pub uniswap_position_manager: Address,
    /// The stableswap pool.
    pub curve_tricrypto_pool: Address,
    /// The pool's reward gauge. Stored only.
    pub curve_tricrypto_gauge: Address,
    /// The feed registered for each token.
    pub price_feeds: Map<Address, Address>,
    /// How long results were meant to be cached. Stored only.
    pub cache_duration: U256,
    /// The master switch: while off, every read answers empty.
    pub enabled: bool,
}

impl AggregatorState {
    /// The engine's error for a caller who is not the owner.
    pub open spec fn unauthorized(caller: Address) -> Error {
        Error::of_ownable(ownable::unauthorized(caller))
    }

    /// The state right after deployment for `initial_owner`, on top of the
    /// feeds registered before.
    pub open spec fn deployed(self, initial_owner: Address) -> AggregatorState {
        AggregatorState {
            owner: initial_owner,
            aave_pool_data_provider: spec_default_aave_pool_data_provider(),
            uniswap_position_manager: spec_default_uniswap_position_manager(),
            curve_tricrypto_pool: spec_default_curve_tricrypto_pool(),
            curve_tricrypto_gauge: spec_default_curve_tricrypto_gauge(),
            price_feeds: self.price_feeds.insert(spec_weth(), spec_weth_usd_feed()).insert(
                spec_usdc(),
                spec_usdc_usd_feed(),
            ),
            cache_duration: U256::spec_from_u64(30),
            enabled: true,
        }
    }

    /// What `constructor` answers: the deployed state, or `InvalidOwner` for
    /// the identifier of no account.
    pub open spec fn construct(self, initial_owner: Address) -> Result<AggregatorState, Error> {
        if initial_owner == Address::spec_zero() {
            Err(Error::of_ownable(ownable::invalid_owner()))
        } else {
            Ok(self.deployed(initial_owner))
        }
    }

    /// The feed in force for a token; the identifier of no account where the
    /// token has none.
    pub open spec fn price_feed(self, token: Address) -> Address {
        feed_in(self.price_feeds, token)
    }

    /// This state with `feed` registered for `token`, in place of any feed
    /// the token had.
    pub open spec fn registered(self, token: Address, feed: Address) -> AggregatorState {
        AggregatorState { price_feeds: self.price_feeds.insert(token, feed), ..self }
    }

    /// What `set_price_feed` answers.
    pub open spec fn set_price_feed(self, caller: Address, token: Address, feed: Address) -> Result<
        AggregatorState,
        Error,
    > {
        if caller != self.owner {
            Err(Self::unauthorized(caller))
        } else {
            Ok(self.registered(token, feed))
        }
    }

    /// What `set_protocol_addresses` answers.
    pub open spec fn set_protocol_addresses(
        self,
        caller: Address,
        aave: Address,
        uniswap: Address,
        curve_pool: Address,
        curve_gauge: Address,
    ) -> Result<AggregatorState, Error> {
        if caller != self.owner {
            Err(Self::unauthorized(caller))
        } else {
            Ok(
                AggregatorState {
                    aave_pool_data_provider: aave,
                    uniswap_position_manager: uniswap,
                    curve_tricrypto_pool: curve_pool,
                    curve_tricrypto_gauge: curve_gauge,
                    ..self
                },
            )
        }
    }

    /// What `set_enabled` answers.
    pub open spec fn set_enabled(self, caller: Address, enabled: bool) -> Result<
        AggregatorState,
        Error,
    > {
        if caller != self.owner {
            Err(Self::unauthorized(caller))
        } else {
            Ok(AggregatorState { enabled, ..self })
        }
    }

    /// What `transfer_ownership` answers.
    pub open spec fn transfer_ownership(self, caller: Address, new_owner: Address) -> Result<
        AggregatorState,
        Error,
    > {
        if caller != self.owner {
            Err(Self::unauthorized(caller))
        } else if new_owner == Address::spec_zero() {
            Err(Error::of_ownable(ownable::invalid_owner()))
        } else {
            Ok(AggregatorState { owner: new_owner, ..self })
        }
    }

    /// What `renounce_ownership` answers.
    pub open spec fn renounce_ownership(self, caller: Address) -> Result<AggregatorState, Error> {
        if caller != self.owner {
            Err(Self::unauthorized(caller))
        } else {
            Ok(AggregatorState { owner: Address::spec_zero(), ..self })
        }
    }
}

/// Whether an operation that writes answered as its model says: on success
/// the state is the model's next state, on refusal the model's error comes
/// back and the state is the one before.
pub open spec fn answers(
    before: AggregatorState,
    after: AggregatorState,
    result: Result<(), Error>,
    model: Result<AggregatorState, Error>,
) -> bool {
    match model {
        Ok(next) => result is Ok && after == next,
        Err(e) => result == Err::<(), Error>(e) && after == before,
    }
}

/// The authorization gate: whoever is not the owner is refused by every
/// operation that writes, whatever its arguments, with `UnauthorizedAccount`
/// naming the caller. With [`answers`] this means that the state stays as it
/// was.
pub proof fn lemma_only_the_owner_writes(
    state: AggregatorState,
    caller: Address,
    token: Address,
    feed: Address,
    aave: Address,
    uniswap: Address,
    curve_pool: Address,
    curve_gauge: Address,
    enabled: bool,
    new_owner: Address,
)
    requires
        caller != state.owner,
    ensures
        state.set_price_feed(caller, token, feed) == Err::<AggregatorState, Error>(
            AggregatorState::unauthorized(caller),
        ),
        state.set_protocol_addresses(caller, aave, uniswap, curve_pool, curve_gauge) == Err::<
            AggregatorState,
            Error,
        >(AggregatorState::unauthorized(caller)),
        state.set_enabled(caller, enabled) == Err::<AggregatorState, Error>(
            AggregatorState::unauthorized(caller),
        ),
        state.transfer_ownership(caller, new_owner) == Err::<AggregatorState, Error>(
            AggregatorState::unauthorized(caller),
        ),
        state.renounce_ownership(caller) == Err::<AggregatorState, Error>(
            AggregatorState::unauthorized(caller),
        ),
        AggregatorState::unauthorized(caller) == Error::UnauthorizedAccount(
            ownable::OwnableUnauthorizedAccount { account: caller },
        ),
{
}

/// The aggregation engine: its owner and its configuration.
#[derive(Clone, Debug)]
pub struct YieldAggregator {
    ownable: Ownable,
    aave_pool_data_provider: Address,
    uniswap_position_manager: Address,
    curve_tricrypto_pool: Address,
    curve_tricrypto_gauge: Address,
    price_feeds: PriceFeeds,
    cache_duration: U256,
    enabled: bool,
}

impl View for YieldAggregator {
    type V = AggregatorState;

    closed spec fn view(&self) -> AggregatorState {
        AggregatorState {
            owner: self.ownable.owner,
            aave_pool_data_provider: self.aave_pool_data_provider,
            uniswap_position_manager: self.uniswap_position_manager,
            curve_tricrypto_pool: self.curve_tricrypto_pool,
            curve_tricrypto_gauge: self.curve_tricrypto_gauge,
            price_feeds: self.price_feeds@,
            cache_duration: self.cache_duration,
            enabled: self.enabled,
        }
    }
}

impl YieldAggregator {
    /// An engine before deployment: no owner, no addresses, no feeds,
    /// switched off.
    pub fn new() -> (r: YieldAggregator)
        ensures
            r@ == (AggregatorState {
                owner: Address::spec_zero(),
                aave_pool_data_provider: Address::spec_zero(),
                uniswap_position_manager: Address::spec_zero(),
                curve_tricrypto_pool: Address::spec_zero(),
                curve_tricrypto_gauge: Address::spec_zero(),
                price_feeds: Map::empty(),
                cache_duration: U256::spec_zero(),
                enabled: false,
            }),
    {
        YieldAggregator {
            ownable: Ownable::unowned(),
            aave_pool_data_provider: Address::zero(),
            uniswap_position_manager: Address::zero(),
            curve_tricrypto_pool: Address::zero(),
            curve_tricrypto_gauge: Address::zero(),
            price_feeds: PriceFeeds::new(),
            cache_duration: U256::zero(),
            enabled: false,
        }
    }

    /// An engine in a state that was kept elsewhere: for a caller that stores
    /// the configuration itself and brings it back for each request.
    pub fn restore(
        owner: Address,
        aave_pool_data_provider: Address,
        uniswap_position_manager: Address,
        curve_tricrypto_pool: Address,
        curve_tricrypto_gauge: Address,
        price_feeds: PriceFeeds,
        cache_duration: U256,
        enabled: bool,
    ) -> (r: YieldAggregator)
        ensures
            r@ == (AggregatorState {
                owner,
                aave_pool_data_provider,
                uniswap_position_manager,
                curve_tricrypto_pool,
                curve_tricrypto_gauge,
                price_feeds: price_feeds@,
                cache_duration,
                enabled,
            }),
    {
        YieldAggregator {
            ownable: Ownable { owner },
            aave_pool_data_provider,
            uniswap_position_manager,
            curve_tricrypto_pool,
            curve_tricrypto_gauge,
            price_feeds,
            cache_duration,
            enabled,
        }
    }

    /// Deploys the engine for `initial_owner`: sets the owner, the built-in
    /// protocol addresses and the feeds of the two built-in tokens, a cache
    /// duration of 30, and switches the engine on. Refused with
    /// `InvalidOwner` for the identifier of no account.
    ///
    /// Deployment is for the host to run once. This does not ask whether
    /// the engine was deployed before, nor who is calling.
    pub fn constructor(&mut self, initial_owner: Address) -> (r: Result<(), Error>)
        ensures
            answers(old(self)@, final(self)@, r, old(self)@.construct(initial_owner)),
    {
        match self.ownable.constructor(initial_owner) {
            Ok(()) => {},
            Err(e) => {
                return Err(Error::from(e));
            },
        }
        self.aave_pool_data_provider = default_aave_pool_data_provider();
        self.uniswap_position_manager = default_uniswap_position_manager();
        self.curve_tricrypto_pool = default_curve_tricrypto_pool();
        self.curve_tricrypto_gauge = default_curve_tricrypto_gauge();
        self.price_feeds.insert(weth(), weth_usd_feed());
        self.price_feeds.insert(usdc(), usdc_usd_feed());
        self.cache_duration = U256::from_u64(30);
        self.enabled = true;
        Ok(())
    }

    /// Registers `feed` as the price feed of `token`, in place of any feed
    /// the token had. Owner only.
    pub fn set_price_feed(&mut self, caller: Address, token: Address, feed: Address) -> (r: Result<
        (),
        Error,
    >)
        ensures
            answers(old(self)@, final(self)@, r, old(self)@.set_price_feed(caller, token, feed)),
            caller != old(self)@.owner ==> r == Err::<(), Error>(
                AggregatorState::unauthorized(caller),
            ) && final(self)@ == old(self)@,
    {
        match self.ownable.only_owner(caller) {
            Ok(()) => {},
            Err(e) => {
                return Err(Error::from(e));
            },
        }
        self.price_feeds.insert(token, feed);
        Ok(())
    }

    /// Replaces the four protocol addresses. Owner only.
    pub fn set_protocol_addresses(
        &mut self,
        caller: Address,
        aave: Address,
        uniswap: Address,
        curve_pool: Address,
        curve_gauge: Address,
    ) -> (r: Result<(), Error>)
        ensures
            answers(
                old(self)@,
                final(self)@,
                r,
                old(self)@.set_protocol_addresses(caller, aave, uniswap, curve_pool, curve_gauge),
            ),
            caller != old(self)@.owner ==> r == Err::<(), Error>(
                AggregatorState::unauthorized(caller),
            ) && final(self)@ == old(self)@,
    {
        match self.ownable.only_owner(caller) {
            Ok(()) => {},
            Err(e) => {
                return Err(Error::from(e));
            },
        }
        self.aave_pool_data_provider = aave;
        self.uniswap_position_manager = uniswap;
        self.curve_tricrypto_pool = curve_pool;
        self.curve_tricrypto_gauge = curve_gauge;
        Ok(())
    }

    /// Switches the engine on or off. Owner only.
    pub fn set_enabled(&mut self, caller: Address, enabled: bool) -> (r: Result<(), Error>)
        ensures
            answers(old(self)@, final(self)@, r, old(self)@.set_enabled(caller, enabled)),
            caller != old(self)@.owner ==> r == Err::<(), Error>(
                AggregatorState::unauthorized(caller),
            ) && final(self)@ == old(self)@,
    {
        match self.ownable.only_owner(caller) {
            Ok(()) => {},
            Err(e) => {
                return Err(Error::from(e));
            },
        }
        self.enabled = enabled;
        Ok(())
    }

    /// The current owner; the identifier of no account once the ownership
    /// was given up.
    pub fn owner(&self) -> (r: Address)
        ensures
            r == self@.owner,
    {
        self.ownable.owner()
    }

    /// Hands the ownership to `new_owner`. Owner only; refused with
    /// `InvalidOwner` for the identifier of no account.
    pub fn transfer_ownership(&mut self, caller: Address, new_owner: Address) -> (r: Result<
        (),
        Error,
    >)
        ensures
            answers(old(self)@, final(self)@, r, old(self)@.transfer_ownership(caller, new_owner)),
            caller != old(self)@.owner ==> r == Err::<(), Error>(
                AggregatorState::unauthorized(caller),
            ) && final(self)@ == old(self)@,
    {
        match self.ownable.transfer_ownership(caller, new_owner) {
            Ok(()) => Ok(()),
            Err(e) => Err(Error::from(e)),
        }
    }

    /// Gives the ownership up: from then on every owner-only operation is
    /// refused. Owner only.
    pub fn renounce_ownership(&mut self, caller: Address) -> (r: Result<(), Error>)
        ensures
            answers(old(self)@, final(self)@, r, old(self)@.renounce_ownership(caller)),
            caller != old(self)@.owner ==> r == Err::<(), Error>(
                AggregatorState::unauthorized(caller),
            ) && final(self)@ == old(self)@,
    {
        match self.ownable.renounce_ownership(caller) {
            Ok(()) => Ok(()),
            Err(e) => Err(Error::from(e)),
        }
    }

    /// Whether the engine is switched on.
    pub fn enabled(&self) -> (r: bool)
        ensures
            r == self@.enabled,
    {
        self.enabled
    }

    /// Where the lending adapter asks for reserve data.
    pub fn aave_pool_data_provider(&self) -> (r: Address)
        ensures
            r == self@.aave_pool_data_provider,
    {
        self.aave_pool_data_provider
    }

    /// Where the concentrated-liquidity adapter asks for balances.
    pub fn uniswap_position_manager(&self) -> (r: Address)
        ensures
            r == self@.uniswap_position_manager,
    {
        self.uniswap_position_manager
    }

    /// The stableswap pool.
    pub fn curve_tricrypto_pool(&self) -> (r: Address)
        ensures
            r == self@.curve_tricrypto_pool,
    {
        self.curve_tricrypto_pool
    }

    /// The stableswap pool's reward gauge.
    pub fn curve_tricrypto_gauge(&self) -> (r: Address)
        ensures
            r == self@.curve_tricrypto_gauge,
    {
        self.curve_tricrypto_gauge
    }

    /// The configured cache duration. No operation of the engine reads it.
    pub fn cache_duration(&self) -> (r: U256)
        ensures
            r == self@.cache_duration,
    {
        self.cache_duration
    }

    /// The feed registered for `token`; the identifier of no account where
    /// none is.
    pub fn price_feed(&self, token: Address) -> (r: Address)
        ensures
            r == self@.price_feed(token),
    {
        self.price_feeds.get(token)
    }
}

} // verus!
