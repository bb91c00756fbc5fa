use vstd::prelude::*;

use crate::pairs::{index_of, unique_keys};

verus! {

/// The ways an operation on a market can fail.
#[derive(Clone, Copy, PartialEq, Eq, Debug, Structural)]
pub enum Error {
    Unauthorized,
    MarketClosed,
    OracleUnavailable,
    InsufficientStake,
    MarketAlreadyResolved,
    InvalidOracleConfig,
    /// The chosen outcome is not one of the market's outcomes.
    InvalidOutcome,
    /// A dispute was raised before the market closed.
    DisputeTooEarly,
    /// A stake was zero or negative.
    InvalidStake,
    /// A sum of stakes or a deadline left its integer range.
    Overflow,
    /// The engine already has an admin.
    AlreadyInitialized,
}

/// The price-feed providers a market can be configured with.
#[derive(Clone, Copy, PartialEq, Eq, Debug, Structural)]
pub enum OracleProvider {
    BandProtocol,
    DIA,
    Reflector,
    Pyth,
}

/// How a market's outcome is read from a price feed.
#[derive(Clone, Debug)]
pub struct OracleConfig {
    pub provider: OracleProvider,
    /// The provider's identifier of the feed.
    pub feed_id: String,
    /// The price to compare against, in cents.
    pub threshold: i128,
    /// One of `gt`, `lt`, `eq`.
    pub comparison: String,
}

/// A price as a Pyth feed reports it.
#[derive(Clone, Copy, Debug)]
pub struct PythPrice {
    pub price: i128,
    pub conf: u64,
    pub expo: i32,
    pub publish_time: u64,
}

/// One market and everything recorded against it.
///
/// `votes` maps a participant to the outcome they chose and `dispute_stakes`
/// a participant to what they have staked in disputes; each is kept as a list
/// of pairs in the order the participants first appeared, one pair per
/// participant.
#[derive(Clone, Debug)]
pub struct Market {
    pub admin: String,
    pub question: String,
    pub outcomes: Vec<String>,
    pub end_time: u64,
    pub oracle_config: OracleConfig,
    /// The signal's outcome once fetched; the final outcome once resolved.
    pub oracle_result: Option<String>,
    pub votes: Vec<(String, String)>,
    pub total_staked: i128,
    pub dispute_stakes: Vec<(String, i128)>,
    /// Set when the final outcome has been written.
    pub resolved: bool,
}

/// The outcome labels of a market, as character sequences.
pub open spec fn labels(outcomes: Seq<String>) -> Seq<Seq<char>> {
    outcomes.map_values(|s: String| s@)
}

impl Market {
    /// The market's outcome labels.
    pub open spec fn outcome_labels(&self) -> Seq<Seq<char>> {
        labels(self.outcomes@)
    }

    /// The state every operation preserves: one vote and one dispute entry
    /// per participant, votes only for declared outcomes, dispute entries
    /// positive, the total stake not negative, and a result present once
    /// resolved.
    pub open spec fn wf(&self) -> bool {
        &&& unique_keys(self.votes@)
        &&& unique_keys(self.dispute_stakes@)
        &&& forall|i: int| 0 <= i < self.votes@.len()
            ==> self.outcome_labels().contains(#[trigger] self.votes@[i].1@)
        &&& forall|i: int| 0 <= i < self.dispute_stakes@.len()
            ==> #[trigger] self.dispute_stakes@[i].1 > 0
        &&& self.total_staked >= 0
        &&& self.resolved ==> self.oracle_result is Some
    }

    /// The outcome a participant voted for, if any.
    pub open spec fn vote_of(&self, user: Seq<char>) -> Option<Seq<char>> {
        match index_of(self.votes@, user) {
            Some(i) => Some(self.votes@[i].1@),
            None => None,
        }
    }

    /// What a participant has staked in disputes; zero if nothing.
    pub open spec fn dispute_stake_of(&self, user: Seq<char>) -> int {
        match index_of(self.dispute_stakes@, user) {
            Some(i) => self.dispute_stakes@[i].1 as int,
            None => 0,
        }
    }
}

} // verus!
