//! The queries that a read takes, and the order in which to make them.
//!
//! The engine performs no query itself. For a read it names the next query
//! whose reply it lacks; the caller performs that query and records the reply
//! on the chain; and so on until the engine names none. Which queries a read
//! consults depends on the replies so far: the lending adapter asks for a
//! price only after a balance came back above zero, and the stableswap
//! adapter for the virtual price likewise. While the engine is switched off a
//! read asks for nothing.

use crate::address::Address;
use crate::aggregator::{AggregatorState, YieldAggregator};
use crate::chain::{Chain, ChainView, Query, Reply};
use crate::defaults::{spec_weth, weth};
use vstd::prelude::*;

verus! {

/// The first query of a plan that the chain holds no reply to.
pub open spec fn first_unknown(plan: Seq<Query>, chain: ChainView) -> Option<Query>
    decreases plan.len(),
{
    if plan.len() == 0 {
        None
    } else if !chain.knows(plan[0]) {
        Some(plan[0])
    } else {
        first_unknown(plan.drop_first(), chain)
    }
}

/// The list that holds a query if there is one.
pub open spec fn queried(query: Option<Query>) -> Seq<Query> {
    match query {
        Some(q) => seq![q],
        None => Seq::empty(),
    }
}

impl AggregatorState {
    /// The queries that the lending adapter consults for an owner: the
    /// reserve data, and, once that shows a balance, the price of the
    /// reference asset if it has a feed.
    pub open spec fn aave_plan(self, owner: Address, chain: ChainView) -> Seq<Query> {
        if self.collateral_balance(owner, chain) > 0 {
            seq![self.reserve_query(owner)] + queried(self.price_query(spec_weth()))
        } else {
            seq![self.reserve_query(owner)]
        }
    }

    /// Whether the chain shows that the owner holds a share of the
    /// stableswap pool.
    pub open spec fn holds_pool_share(self, owner: Address, chain: ChainView) -> bool {
        chain.reply_to(self.curve_query(owner)) matches Reply::Amount(balance) && balance@ > 0
    }

    /// The queries that the stableswap adapter consults for an owner: the
    /// owner's share, and, once that shows a balance, the virtual price.
    pub open spec fn curve_plan(self, owner: Address, chain: ChainView) -> Seq<Query> {
        if self.holds_pool_share(owner, chain) {
            seq![self.curve_query(owner), self.virtual_price_query()]
        } else {
            seq![self.curve_query(owner)]
        }
    }

    /// The queries that the three adapters consult for an owner, in order,
    /// as far as the replies on the chain let them get.
    pub open spec fn owner_plan(self, owner: Address, chain: ChainView) -> Seq<Query> {
        self.aave_plan(owner, chain) + seq![self.uniswap_query(owner)] + self.curve_plan(
            owner,
            chain,
        )
    }

    /// The queries consulted for several owners, owner after owner, whatever
    /// the switch says.
    pub open spec fn owners_plan(self, owners: Seq<Address>, chain: ChainView) -> Seq<Query>
        decreases owners.len(),
    {
        if owners.len() == 0 {
            Seq::empty()
        } else {
            self.owners_plan(owners.drop_last(), chain) + self.owner_plan(owners.last(), chain)
        }
    }

    /// The queries that a read for `owners` consults: none while the engine
    /// is switched off.
    pub open spec fn plan(self, owners: Seq<Address>, chain: ChainView) -> Seq<Query> {
        if self.enabled {
            self.owners_plan(owners, chain)
        } else {
            Seq::empty()
        }
    }

    /// Whether `query` is one of the three that are made for `owner` in
    /// person: the owner's reserve data, count of position tokens and share
    /// of the pool.
    pub open spec fn asks_about(self, owner: Address, query: Query) -> bool {
        query == self.reserve_query(owner) || query == self.uniswap_query(owner) || query
            == self.curve_query(owner)
    }

    /// Whether a read for `owners` can ask for `query` at all: three queries
    /// for each owner, and the reference asset's price and the pool's virtual
    /// price once for all of them. Nothing in this depends on a reply.
    pub open spec fn may_ask(self, owners: Seq<Address>, query: Query) -> bool {
        ||| exists|i: int| 0 <= i < owners.len() && self.asks_about(#[trigger] owners[i], query)
        ||| owners.len() > 0 && self.price_query(spec_weth()) == Some(query)
        ||| owners.len() > 0 && query == self.virtual_price_query()
    }
}

/// Whatever the replies are, a read asks only for queries that it may ask
/// for. As these are finitely many and every query that is asked for is one
/// that the chain does not hold yet, gathering the replies comes to an end.
pub proof fn lemma_plan_within_reach(
    state: AggregatorState,
    owners: Seq<Address>,
    chain: ChainView,
    at: int,
)
    requires
        0 <= at < state.owners_plan(owners, chain).len(),
    ensures
        state.may_ask(owners, state.owners_plan(owners, chain)[at]),
    decreases owners.len(),
{
    let shorter = owners.drop_last();
    let before = state.owners_plan(shorter, chain);
    let query = state.owners_plan(owners, chain)[at];
    if at < before.len() {
        lemma_plan_within_reach(state, shorter, chain, at);
        if exists|i: int| 0 <= i < shorter.len() && state.asks_about(#[trigger] shorter[i], query) {
            let i = choose|i: int|
                0 <= i < shorter.len() && state.asks_about(#[trigger] shorter[i], query);
            assert(owners[i] == shorter[i]);
        }
    } else {
        assert(owners[owners.len() - 1] == owners.last());
        assert(query == state.owner_plan(owners.last(), chain)[at - before.len()]);
    }
}

/// The first unknown query of two plans in a row is that of the first plan,
/// and that of the second where the first has none.
pub proof fn lemma_first_unknown_concat(first: Seq<Query>, second: Seq<Query>, chain: ChainView)
    ensures
        first_unknown(first + second, chain) == match first_unknown(first, chain) {
            Some(q) => Some(q),
            None => first_unknown(second, chain),
        },
    decreases first.len(),
{
    if first.len() == 0 {
        assert(first + second =~= second);
    } else {
        assert((first + second).drop_first() =~= first.drop_first() + second);
        lemma_first_unknown_concat(first.drop_first(), second, chain);
    }
}

/// A plan has no unknown query exactly when the chain holds a reply to each
/// of its queries; and an unknown query that comes back is one of the plan.
pub proof fn lemma_first_unknown(plan: Seq<Query>, chain: ChainView)
    ensures
        first_unknown(plan, chain) is None <==> forall|i: int|
            0 <= i < plan.len() ==> chain.knows(#[trigger] plan[i]),
        first_unknown(plan, chain) matches Some(q) ==> plan.contains(q) && !chain.knows(q),
    decreases plan.len(),
{
    if plan.len() > 0 {
        let rest = plan.drop_first();
        lemma_first_unknown(rest, chain);
        if chain.knows(plan[0]) {
            if first_unknown(rest, chain) is None {
                assert forall|i: int| 0 <= i < plan.len() implies chain.knows(
                    #[trigger] plan[i],
                ) by {
                    if i > 0 {
                        assert(plan[i] == rest[i - 1]);
                    }
                }
            } else {
                let q = first_unknown(rest, chain).unwrap();
                let at = choose|i: int| 0 <= i < rest.len() && rest[i] == q;
                assert(plan[at + 1] == q);
            }
        }
    }
}

/// The plan for a longer list of owners begins with the plan for a shorter
/// one.
pub proof fn lemma_owners_prefix(
    state: AggregatorState,
    owners: Seq<Address>,
    count: int,
    chain: ChainView,
)
    requires
        0 <= count <= owners.len(),
    ensures
        state.owners_plan(owners.take(count), chain).is_prefix_of(
            state.owners_plan(owners, chain),
        ),
    decreases owners.len(),
{
    if count == owners.len() {
        assert(owners.take(count) =~= owners);
    } else {
        assert(owners.drop_last().take(count) =~= owners.take(count));
        lemma_owners_prefix(state, owners.drop_last(), count, chain);
    }
}

/// A plan that begins with another has the same first unknown query, where
/// the other has one.
pub proof fn lemma_first_unknown_prefix(head: Seq<Query>, plan: Seq<Query>, chain: ChainView)
    requires
        head.is_prefix_of(plan),
        first_unknown(head, chain) is Some,
    ensures
        first_unknown(plan, chain) == first_unknown(head, chain),
{
    let tail = plan.subrange(head.len() as int, plan.len() as int);
    assert(head + tail =~= plan);
    lemma_first_unknown_concat(head, tail, chain);
}

impl YieldAggregator {
    /// The next query that a read for `owner` needs and the chain holds no
    /// reply to; `None` once the chain holds all that the read consults.
    /// Which queries a read consults depends on the replies so far: a price
    /// is asked for only after a balance came back above zero.
    pub fn next_query_for(&self, owner: Address, chain: &Chain) -> (r: Option<Query>)
        ensures
            r == first_unknown(self@.owner_plan(owner, chain@), chain@),
    {
        let ghost aave = self@.aave_plan(owner, chain@);
        let ghost uniswap = seq![self@.uniswap_query(owner)];
        let ghost curve = self@.curve_plan(owner, chain@);
        proof {
            lemma_first_unknown_concat(aave + uniswap, curve, chain@);
            lemma_first_unknown_concat(aave, uniswap, chain@);
            reveal_with_fuel(first_unknown, 3);
        }
        let asset = weth();
        let reserve = Query::UserReserveData {
            provider: self.aave_pool_data_provider(),
            asset,
            user: owner,
        };
        if !chain.knows(&reserve) {
            return Some(reserve);
        }
        if let Reply::ReserveData { a_token_balance, liquidity_rate } = chain.reply_to(&reserve) {
            if !a_token_balance.is_zero() {
                let feed = self.price_feed(asset);
                if !feed.is_zero() {
                    let round = Query::LatestRoundData { feed };
                    proof {
                        assert(aave =~= seq![reserve, round]);
                        assert(aave.drop_first() =~= seq![round]);
                    }
                    if !chain.knows(&round) {
                        return Some(round);
                    }
                } else {
                    proof {
                        assert(aave =~= seq![reserve]);
                    }
                }
            }
        }
        let count = Query::BalanceOf { token: self.uniswap_position_manager(), owner };
        if !chain.knows(&count) {
            return Some(count);
        }
        let pool = self.curve_tricrypto_pool();
        let share = Query::BalanceOf { token: pool, owner };
        if !chain.knows(&share) {
            return Some(share);
        }
        if let Reply::Amount(balance) = chain.reply_to(&share) {
            if !balance.is_zero() {
                let virtual_price = Query::VirtualPrice { pool };
                proof {
                    assert(curve.drop_first() =~= seq![virtual_price]);
                }
                if !chain.knows(&virtual_price) {
                    return Some(virtual_price);
                }
            }
        }
        None
    }

    /// The next query that a read for `owners` needs and the chain holds no
    /// reply to; `None` once the chain holds all that the read consults, and
    /// always while the engine is switched off.
    ///
    /// To answer a read, start from an empty chain, perform each query that
    /// this names and record its reply, until it names none; then read.
    pub fn next_query(&self, owners: &Vec<Address>, chain: &Chain) -> (r: Option<Query>)
        ensures
            r == first_unknown(self@.plan(owners@, chain@), chain@),
            !self@.enabled ==> r is None,
            r matches Some(q) ==> !chain@.knows(q) && self@.may_ask(owners@, q),
    {
        if !self.enabled() {
            return None;
        }
        let mut at: usize = 0;
        proof {
            assert(owners@.take(0) =~= Seq::<Address>::empty());
        }
        while at < owners.len()
            invariant
                at <= owners@.len(),
                self@.enabled,
                first_unknown(self@.owners_plan(owners@.take(at as int), chain@), chain@) is None,
            decreases owners@.len() - at,
        {
            let next = self.next_query_for(owners[at], chain);
            proof {
                let seen = owners@.take(at as int);
                let more = owners@.take(at as int + 1);
                assert(more.drop_last() =~= seen);
                assert(more.last() == owners@[at as int]);
                lemma_first_unknown_concat(
                    self@.owners_plan(seen, chain@),
                    self@.owner_plan(owners@[at as int], chain@),
                    chain@,
                );
                lemma_owners_prefix(self@, owners@, at as int + 1, chain@);
                if next is Some {
                    lemma_first_unknown_prefix(
                        self@.owners_plan(more, chain@),
                        self@.owners_plan(owners@, chain@),
                        chain@,
                    );
                    let plan = self@.owners_plan(owners@, chain@);
                    lemma_first_unknown(plan, chain@);
                    let found = choose|i: int| 0 <= i < plan.len() && plan[i] == next.unwrap();
                    lemma_plan_within_reach(self@, owners@, chain@, found);
                }
            }
            if next.is_some() {
                return next;
            }
            at = at + 1;
        }
        proof {
            assert(owners@.take(at as int) =~= owners@);
        }
        None
    }
}

} // verus!
