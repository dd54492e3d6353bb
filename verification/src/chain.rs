//! The outside world as the engine sees it during one request: the time of
//! the request, and what each read-only query that was made so far returned.
//!
//! The engine never performs a query. It names the next one it needs
//! ([`crate::aggregator::YieldAggregator::next_query`]); the caller performs
//! it and records the reply here. A query that nothing was recorded for
//! counts as failed.

use crate::address::Address;
use crate::numeric::{I256, U256};
use vstd::prelude::*;

verus! {

/// A read-only call to an outside contract.
#[derive(Clone, Copy, Debug, PartialEq, Eq, Structural)]
pub enum Query {
    /// The reserve data of `user` for `asset`, asked of a lending data
    /// provider.
    UserReserveData { provider: Address, asset: Address, user: Address },
    /// The latest round of a price feed.
    LatestRoundData { feed: Address },
    /// The balance of `owner` in `token`.
    BalanceOf { token: Address, owner: Address },
    /// The virtual price of a stableswap pool.
    VirtualPrice { pool: Address },
}

/// What a query returned, as far as the engine reads it.
#[derive(Clone, Copy, Debug, PartialEq, Eq, Structural)]
pub enum Reply {
    /// The call failed, or what came back did not decode.
    Failed,
    /// Reserve data: the balance of the collateral token and the liquidity
    /// rate.
    ReserveData { a_token_balance: U256, liquidity_rate: U256 },
    /// A price round: its answer.
    RoundData { answer: I256 },
    /// A single amount.
    Amount(U256),
}

/// A query with its reply.
#[derive(Clone, Copy, Debug, PartialEq, Eq, Structural)]
pub struct Record {
    pub query: Query,
    pub reply: Reply,
}

/// The replies that a list of records holds: of two records for one query the
/// later one counts.
pub open spec fn replies_of(records: Seq<Record>) -> Map<Query, Reply>
    decreases records.len(),
{
    if records.len() == 0 {
        Map::empty()
    } else {
        replies_of(records.drop_last()).insert(records.last().query, records.last().reply)
    }
}

/// What a [`Chain`] stands for.
pub struct ChainView {
    /// The time of the request.
    pub timestamp: u64,
    /// The reply to each query that was made.
    pub replies: Map<Query, Reply>,
}

impl ChainView {
    /// Whether the query was made.
    pub open spec fn knows(self, query: Query) -> bool {
        self.replies.dom().contains(query)
    }

    /// The reply to a query; [`Reply::Failed`] if it was not made.
    pub open spec fn reply_to(self, query: Query) -> Reply {
        if self.knows(query) {
            self.replies[query]
        } else {
            Reply::Failed
        }
    }

    /// This view with one more reply.
    pub open spec fn with(self, query: Query, reply: Reply) -> ChainView {
        ChainView { timestamp: self.timestamp, replies: self.replies.insert(query, reply) }
    }
}

/// The time of a request and the replies gathered during it.
#[derive(Clone, Debug)]
pub struct Chain {
    timestamp: u64,
    records: Vec<Record>,
}

impl View for Chain {
    type V = ChainView;

    closed spec fn view(&self) -> ChainView {
        ChainView { timestamp: self.timestamp, replies: replies_of(self.records@) }
    }
}

impl Chain {
    /// A request at `timestamp` during which no query was made yet.
    pub fn new(timestamp: u64) -> (r: Chain)
        ensures
            r@ == (ChainView { timestamp, replies: Map::empty() }),
    {
        Chain { timestamp, records: Vec::new() }
    }

    /// The time of the request.
    pub fn timestamp(&self) -> (r: u64)
        ensures
            r == self@.timestamp,
    {
        self.timestamp
    }

    /// Records the reply to a query. A second reply to the same query takes
    /// the place of the first.
    pub fn record(&mut self, query: Query, reply: Reply)
        ensures
            final(self)@ == old(self)@.with(query, reply),
    {
        self.records.push(Record { query, reply });
        proof {
            assert(self.records@.drop_last() =~= old(self).records@);
        }
    }

    /// The reply that was recorded for a query, if any was.
    pub fn lookup(&self, query: &Query) -> (r: Option<Reply>)
        ensures
            r is Some <==> self@.knows(*query),
            r matches Some(reply) ==> reply == self@.replies[*query],
    {
        let mut at: usize = self.records.len();
        while at > 0
            invariant
                at <= self.records@.len(),
                forall|j: int| at <= j < self.records@.len() ==> self.records@[j].query != *query,
            decreases at,
        {
            at = at - 1;
            if self.records[at].query == *query {
                proof {
                    lemma_latest_record(self.records@, *query, at as int);
                }
                return Some(self.records[at].reply);
            }
        }
        proof {
            lemma_no_record(self.records@, *query);
        }
        None
    }

    /// Whether a reply was recorded for a query.
    pub fn knows(&self, query: &Query) -> (r: bool)
        ensures
            r == self@.knows(*query),
    {
        self.lookup(query).is_some()
    }

    /// The reply to a query; [`Reply::Failed`] if none was recorded.
    pub fn reply_to(&self, query: &Query) -> (r: Reply)
        ensures
            r == self@.reply_to(*query),
    {
        match self.lookup(query) {
            Some(reply) => reply,
            None => Reply::Failed,
        }
    }
}

/// The last record for a query is the one that counts.
proof fn lemma_latest_record(records: Seq<Record>, query: Query, at: int)
    requires
        0 <= at < records.len(),
        records[at].query == query,
        forall|j: int| at < j < records.len() ==> records[j].query != query,
    ensures
        replies_of(records).dom().contains(query),
        replies_of(records)[query] == records[at].reply,
    decreases records.len(),
{
    if at < records.len() - 1 {
        lemma_latest_record(records.drop_last(), query, at);
    }
}

/// A query without a record has no reply.
proof fn lemma_no_record(records: Seq<Record>, query: Query)
    requires
        forall|j: int| 0 <= j < records.len() ==> records[j].query != query,
    ensures
        !replies_of(records).dom().contains(query),
    decreases records.len(),
{
    if records.len() > 0 {
        lemma_no_record(records.drop_last(), query);
    }
}

} // verus!
