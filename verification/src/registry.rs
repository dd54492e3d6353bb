//! The registry of price feeds: which feed answers for which token.
//!
//! Registrations are only ever added. Registering a token again replaces its
//! feed; nothing removes a token.

use crate::address::Address;
use vstd::prelude::*;

verus! {

/// One registration: `feed` answers for `token`.
#[derive(Clone, Copy, Debug, PartialEq, Eq, Structural)]
pub struct Registration {
    pub token: Address,
    pub feed: Address,
}

/// The feeds that a list of registrations leaves in force: of two
/// registrations for one token the later one counts.
pub open spec fn feeds_of(entries: Seq<Registration>) -> Map<Address, Address>
    decreases entries.len(),
{
    if entries.len() == 0 {
        Map::empty()
    } else {
        feeds_of(entries.drop_last()).insert(entries.last().token, entries.last().feed)
    }
}

/// The feed in force for a token in a map of feeds; the identifier of no
/// account where the token has none.
pub open spec fn feed_in(feeds: Map<Address, Address>, token: Address) -> Address {
    if feeds.dom().contains(token) {
        feeds[token]
    } else {
        Address::spec_zero()
    }
}

/// The registry of price feeds.
#[derive(Clone, Debug)]
pub struct PriceFeeds {
    entries: Vec<Registration>,
}

impl View for PriceFeeds {
    type V = Map<Address, Address>;

    closed spec fn view(&self) -> Map<Address, Address> {
        feeds_of(self.entries@)
    }
}

impl PriceFeeds {
    /// A registry without registrations.
    pub fn new() -> (r: PriceFeeds)
        ensures
            r@ == Map::<Address, Address>::empty(),
    {
        PriceFeeds { entries: Vec::new() }
    }

    /// Registers `feed` for `token`, in place of any feed the token had.
    pub fn insert(&mut self, token: Address, feed: Address)
        ensures
            final(self)@ == old(self)@.insert(token, feed),
    {
        self.entries.push(Registration { token, feed });
        proof {
            assert(self.entries@.drop_last() =~= old(self).entries@);
        }
    }

    /// The feed registered for `token`; the identifier of no account where
    /// none is.
    pub fn get(&self, token: Address) -> (r: Address)
        ensures
            r == feed_in(self@, token),
    {
        let mut at: usize = self.entries.len();
        while at > 0
            invariant
                at <= self.entries@.len(),
                forall|j: int| at <= j < self.entries@.len() ==> self.entries@[j].token != token,
            decreases at,
        {
            at = at - 1;
            if self.entries[at].token == token {
                proof {
                    lemma_latest_registration(self.entries@, token, at as int);
                }
                return self.entries[at].feed;
            }
        }
        proof {
            lemma_no_registration(self.entries@, token);
        }
        Address::zero()
    }
}

/// The last registration of a token is the one in force.
proof fn lemma_latest_registration(entries: Seq<Registration>, token: Address, at: int)
    requires
        0 <= at < entries.len(),
        entries[at].token == token,
        forall|j: int| at < j < entries.len() ==> entries[j].token != token,
    ensures
        feeds_of(entries).dom().contains(token),
        feeds_of(entries)[token] == entries[at].feed,
    decreases entries.len(),
{
    if at < entries.len() - 1 {
        lemma_latest_registration(entries.drop_last(), token, at);
    }
}

/// A token that was never registered has no feed.
proof fn lemma_no_registration(entries: Seq<Registration>, token: Address)
    requires
        forall|j: int| 0 <= j < entries.len() ==> entries[j].token != token,
    ensures
        !feeds_of(entries).dom().contains(token),
    decreases entries.len(),
{
    if entries.len() > 0 {
        lemma_no_registration(entries.drop_last(), token);
    }
}

} // verus!
