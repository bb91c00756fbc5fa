use vstd::prelude::*;

use crate::oracle::{answer_outcome, label_view, price_outcome, OracleInterface};
use crate::pairs::{find_key, keys_unique, index_of, lemma_unique_push, lemma_unique_update, unique_keys};
use crate::resolution::{final_outcome, final_outcome_of};
use crate::types::{labels, Error, Market, OracleConfig};

verus! {

/// The smallest stake that can open a dispute: 10 units of an asset with
/// seven decimals.
pub const MIN_DISPUTE_STAKE: i128 = 100_000_000;

/// How far past the moment of a dispute the deadline is pushed, in seconds.
pub const DISPUTE_EXTENSION: u64 = 86_400;

/// The votes after `user` chooses `outcome`: their earlier vote is replaced
/// in place, or a new one is appended.
pub open spec fn record_vote(votes: Seq<(String, String)>, user: String, outcome: String) -> Seq<
    (String, String),
> {
    match index_of(votes, user@) {
        Some(i) => votes.update(i, (user, outcome)),
        None => votes.push((user, outcome)),
    }
}

/// The dispute stakes after `user` adds `stake`.
pub open spec fn add_dispute_stake(stakes: Seq<(String, i128)>, user: String, stake: i128) -> Seq<
    (String, i128),
> {
    match index_of(stakes, user@) {
        Some(i) => stakes.update(i, (user, (stakes[i].1 + stake) as i128)),
        None => stakes.push((user, stake)),
    }
}

/// Every field but the votes, the total stake, the dispute stakes and the
/// deadline is the same in both markets.
pub open spec fn same_terms(a: Market, b: Market) -> bool {
    &&& a.admin == b.admin
    &&& a.question == b.question
    &&& a.outcomes == b.outcomes
    &&& a.oracle_config == b.oracle_config
    &&& a.oracle_result == b.oracle_result
    &&& a.resolved == b.resolved
}

/// Everything but the signal's result and the resolved flag is the same in
/// both markets.
pub open spec fn same_book(a: Market, b: Market) -> bool {
    &&& a.admin == b.admin
    &&& a.question == b.question
    &&& a.outcomes == b.outcomes
    &&& a.oracle_config == b.oracle_config
    &&& a.end_time == b.end_time
    &&& a.votes == b.votes
    &&& a.total_staked == b.total_staked
    &&& a.dispute_stakes == b.dispute_stakes
}

/// Why a vote is refused, if it is.
pub open spec fn vote_error(m: Market, outcome: Seq<char>, stake: i128, now: u64) -> Option<Error> {
    if now >= m.end_time {
        Some(Error::MarketClosed)
    } else if !m.outcome_labels().contains(outcome) {
        Some(Error::InvalidOutcome)
    } else if stake <= 0 {
        Some(Error::InvalidStake)
    } else if m.total_staked + stake > i128::MAX {
        Some(Error::Overflow)
    } else {
        None
    }
}

/// `new` is `old` after an accepted vote.
pub open spec fn vote_applied(old: Market, new: Market, user: String, outcome: String, stake: i128) -> bool {
    &&& same_terms(old, new)
    &&& new.end_time == old.end_time
    &&& new.dispute_stakes == old.dispute_stakes
    &&& new.votes@ == record_vote(old.votes@, user, outcome)
    &&& new.total_staked == old.total_staked + stake
}

/// Why a dispute is refused, if it is.
pub open spec fn dispute_error(m: Market, user: Seq<char>, stake: i128, now: u64) -> Option<Error> {
    if now < m.end_time {
        Some(Error::DisputeTooEarly)
    } else if stake < MIN_DISPUTE_STAKE {
        Some(Error::InsufficientStake)
    } else if m.dispute_stake_of(user) + stake > i128::MAX {
        Some(Error::Overflow)
    } else if now + DISPUTE_EXTENSION > u64::MAX {
        Some(Error::Overflow)
    } else {
        None
    }
}

/// The deadline after a dispute at `now`: pushed to a day past `now` when it
/// is earlier than that, else kept.
pub open spec fn extended_end(end_time: u64, now: u64) -> u64 {
    if end_time < now + DISPUTE_EXTENSION {
        (now + DISPUTE_EXTENSION) as u64
    } else {
        end_time
    }
}

/// `new` is `old` after an accepted dispute.
pub open spec fn dispute_applied(old: Market, new: Market, user: String, stake: i128, now: u64) -> bool {
    &&& same_terms(old, new)
    &&& new.votes == old.votes
    &&& new.total_staked == old.total_staked
    &&& new.dispute_stakes@ == add_dispute_stake(old.dispute_stakes@, user, stake)
    &&& new.end_time == extended_end(old.end_time, now)
}

/// Why fetching the signal is refused before any adapter is asked, if it is.
pub open spec fn fetch_error(m: Market, now: u64) -> Option<Error> {
    if m.oracle_result is Some {
        Some(Error::MarketAlreadyResolved)
    } else if now < m.end_time {
        Some(Error::MarketClosed)
    } else {
        None
    }
}

/// Why resolution is refused, if it is.
pub open spec fn resolve_error(m: Market, now: u64) -> Option<Error> {
    if now < m.end_time {
        Some(Error::MarketClosed)
    } else if m.resolved {
        Some(Error::MarketAlreadyResolved)
    } else if m.oracle_result is None {
        Some(Error::OracleUnavailable)
    } else {
        None
    }
}

/// Whether `outcome` is one of the declared outcomes.
fn has_outcome(outcomes: &Vec<String>, outcome: &String) -> (r: bool)
    ensures
        r == labels(outcomes@).contains(outcome@),
{
    let mut j: usize = 0;
    while j < outcomes.len()
        invariant
            j <= outcomes@.len(),
            forall|i: int| 0 <= i < j ==> #[trigger] outcomes@[i]@ != outcome@,
        decreases outcomes@.len() - j,
    {
        if outcomes[j] == *outcome {
            assert(labels(outcomes@)[j as int] == outcome@);
            return true;
        }
        j = j + 1;
    }
    proof {
        if labels(outcomes@).contains(outcome@) {
            let k = choose|k: int| 0 <= k < labels(outcomes@).len() && labels(outcomes@)[k] == outcome@;
            assert(outcomes@[k]@ == outcome@);
        }
    }
    false
}

proof fn lemma_index_unique<V>(pairs: Seq<(String, V)>, i: int)
    requires
        unique_keys(pairs),
        0 <= i < pairs.len(),
    ensures
        index_of(pairs, pairs[i].0@) == Some(i),
{
    let k = pairs[i].0@;
    assert(pairs[i].0@ == k);
    let j = choose|j: int| 0 <= j < pairs.len() && #[trigger] pairs[j].0@ == k;
    if j != i {
        if i < j {
            assert(pairs[i].0@ != pairs[j].0@);
        } else {
            assert(pairs[j].0@ != pairs[i].0@);
        }
    }
}

impl Market {
    /// Whether the market meets `wf`, the state every operation requires.
    pub fn is_well_formed(&self) -> (r: bool)
        ensures
            r == self.wf(),
    {
        if !keys_unique(&self.votes) || !keys_unique(&self.dispute_stakes) {
            return false;
        }
        let mut i: usize = 0;
        while i < self.votes.len()
            invariant
                i <= self.votes@.len(),
                forall|k: int| 0 <= k < i ==> self.outcome_labels().contains(#[trigger] self.votes@[k].1@),
            decreases self.votes@.len() - i,
        {
            if !has_outcome(&self.outcomes, &self.votes[i].1) {
                return false;
            }
            i = i + 1;
        }
        let mut j: usize = 0;
        while j < self.dispute_stakes.len()
            invariant
                j <= self.dispute_stakes@.len(),
                forall|k: int| 0 <= k < j ==> #[trigger] self.dispute_stakes@[k].1 > 0,
            decreases self.dispute_stakes@.len() - j,
        {
            if self.dispute_stakes[j].1 <= 0 {
                return false;
            }
            j = j + 1;
        }
        self.total_staked >= 0 && (!self.resolved || self.oracle_result.is_some())
    }
}

/// The engine's configuration: who may create markets.
pub struct PredictifyHybrid {
    pub admin: Option<String>,
}

impl PredictifyHybrid {
    /// An engine with no admin yet.
    pub fn new() -> (r: Self)
        ensures
            r.admin is None,
    {
        PredictifyHybrid { admin: None }
    }

    /// Sets the identity that may create markets, once.
    pub fn initialize(&mut self, admin: String) -> (r: Result<(), Error>)
        ensures
            old(self).admin is None ==> r is Ok && final(self).admin == Some(admin),
            old(self).admin is Some ==> r == Err::<(), Error>(Error::AlreadyInitialized)
                && final(self).admin == old(self).admin,
    {
        if self.admin.is_some() {
            return Err(Error::AlreadyInitialized);
        }
        self.admin = Some(admin);
        Ok(())
    }

    /// Creates a market with no votes, no stake and no signal yet. Only the
    /// configured admin may create one.
    pub fn create_market(
        &self,
        admin: String,
        question: String,
        outcomes: Vec<String>,
        end_time: u64,
        oracle_config: OracleConfig,
    ) -> (r: Result<Market, Error>)
        ensures
            r is Ok <==> (self.admin matches Some(a) && a@ == admin@),
            r is Err ==> r == Err::<Market, Error>(Error::Unauthorized),
            r matches Ok(m) ==> {
                &&& m.wf()
                &&& m.admin == admin
                &&& m.question == question
                &&& m.outcomes == outcomes
                &&& m.end_time == end_time
                &&& m.oracle_config == oracle_config
                &&& m.oracle_result is None
                &&& m.votes@.len() == 0
                &&& m.total_staked == 0
                &&& m.dispute_stakes@.len() == 0
                &&& !m.resolved
            },
    {
        let allowed = match &self.admin {
            Some(a) => *a == admin,
            None => false,
        };
        if !allowed {
            return Err(Error::Unauthorized);
        }
        Ok(
            Market {
                admin,
                question,
                outcomes,
                end_time,
                oracle_config,
                oracle_result: None,
                votes: Vec::new(),
                total_staked: 0,
                dispute_stakes: Vec::new(),
                resolved: false,
            },
        )
    }

    /// Records `user`'s vote for `outcome` with `stake` added to the market's
    /// total, while the market is open.
    pub fn vote(market: &mut Market, user: String, outcome: String, stake: i128, now: u64) -> (r:
        Result<(), Error>)
        requires
            old(market).wf(),
        ensures
            final(market).wf(),
            now >= old(market).end_time ==> r == Err::<(), Error>(Error::MarketClosed),
            match vote_error(*old(market), outcome@, stake, now) {
                Some(e) => r == Err::<(), Error>(e) && *final(market) == *old(market),
                None => r is Ok && vote_applied(*old(market), *final(market), user, outcome, stake),
            },
    {
        if now >= market.end_time {
            return Err(Error::MarketClosed);
        }
        if !has_outcome(&market.outcomes, &outcome) {
            return Err(Error::InvalidOutcome);
        }
        if stake <= 0 {
            return Err(Error::InvalidStake);
        }
        if stake > i128::MAX - market.total_staked {
            return Err(Error::Overflow);
        }
        let ghost before = *market;
        match find_key(&market.votes, &user) {
            Some(i) => {
                proof {
                    lemma_index_unique(before.votes@, i as int);
                }
                proof {
                    lemma_unique_update(before.votes@, i as int, (user, outcome));
                }
                market.votes[i] = (user, outcome);
            },
            None => {
                proof {
                    lemma_unique_push(before.votes@, (user, outcome));
                }
                market.votes.push((user, outcome));
            },
        }
        market.total_staked = market.total_staked + stake;
        proof {
            assert forall|i: int| 0 <= i < market.votes@.len() implies
                market.outcome_labels().contains(#[trigger] market.votes@[i].1@) by {
                if i < before.votes@.len() && market.votes@[i] != before.votes@[i] {
                } else if i < before.votes@.len() {
                    assert(before.outcome_labels().contains(before.votes@[i].1@));
                }
            }
        }
        Ok(())
    }

    /// Adds `stake` to `user`'s dispute stake once the market has closed,
    /// and pushes the deadline to a day past `now` when it is earlier.
    pub fn dispute_result(market: &mut Market, user: String, stake: i128, now: u64) -> (r: Result<
        (),
        Error,
    >)
        requires
            old(market).wf(),
        ensures
            final(market).wf(),
            final(market).end_time >= old(market).end_time,
            match dispute_error(*old(market), user@, stake, now) {
                Some(e) => r == Err::<(), Error>(e) && *final(market) == *old(market),
                None => r is Ok && dispute_applied(*old(market), *final(market), user, stake, now),
            },
    {
        if now < market.end_time {
            return Err(Error::DisputeTooEarly);
        }
        if stake < MIN_DISPUTE_STAKE {
            return Err(Error::InsufficientStake);
        }
        let ghost before = *market;
        let found = find_key(&market.dispute_stakes, &user);
        let existing: i128 = match found {
            Some(i) => {
                proof {
                    lemma_index_unique(before.dispute_stakes@, i as int);
                }
                market.dispute_stakes[i].1
            },
            None => 0,
        };
        assert(existing == before.dispute_stake_of(user@));
        if stake > i128::MAX - existing {
            return Err(Error::Overflow);
        }
        if now > u64::MAX - DISPUTE_EXTENSION {
            return Err(Error::Overflow);
        }
        let target = now + DISPUTE_EXTENSION;
        match found {
            Some(i) => {
                proof {
                    lemma_unique_update(before.dispute_stakes@, i as int, (user, (existing + stake) as i128));
                }
                market.dispute_stakes[i] = (user, existing + stake);
            },
            None => {
                proof {
                    lemma_unique_push(before.dispute_stakes@, (user, stake));
                }
                market.dispute_stakes.push((user, stake));
            },
        }
        if market.end_time < target {
            market.end_time = target;
        }
        proof {
            assert forall|i: int| 0 <= i < market.votes@.len() implies
                market.outcome_labels().contains(#[trigger] market.votes@[i].1@) by {
                assert(before.outcome_labels().contains(before.votes@[i].1@));
            }
            assert forall|i: int| 0 <= i < market.dispute_stakes@.len() implies
                #[trigger] market.dispute_stakes@[i].1 > 0 by {
                if i < before.dispute_stakes@.len() {
                    assert(before.dispute_stakes@[i].1 > 0);
                }
            }
        }
        Ok(())
    }

    /// Reads the signal once the market has closed: asks the adapter for the
    /// configured feed's price and compares it with the threshold, giving
    /// `yes` or `no`, which is stored. The adapter must speak for the
    /// configured provider, and its errors come back unchanged.
    pub fn fetch_oracle_result<O: OracleInterface>(market: &mut Market, oracle: &O, now: u64) -> (r:
        Result<String, Error>)
        requires
            old(market).wf(),
        ensures
            final(market).wf(),
            fetch_error(*old(market), now) matches Some(e) ==> r == Err::<String, Error>(e),
            r is Err ==> *final(market) == *old(market),
            fetch_error(*old(market), now) is None && old(market).oracle_config.provider
                != oracle.spec_provider() ==> r == Err::<String, Error>(Error::InvalidOracleConfig),
            fetch_error(*old(market), now) is None && old(market).oracle_config.provider
                == oracle.spec_provider() ==> exists|answer: Result<i128, Error>|
                label_view(r) == answer_outcome(
                    old(market).oracle_config.comparison@,
                    old(market).oracle_config.threshold,
                    answer,
                ),
            r matches Ok(s) ==> {
                &&& fetch_error(*old(market), now) is None
                &&& old(market).oracle_config.provider == oracle.spec_provider()
                &&& final(market).oracle_result matches Some(t) && t@ == s@
                &&& !final(market).resolved
                &&& same_book(*old(market), *final(market))
            },
    {
        if market.oracle_result.is_some() {
            return Err(Error::MarketAlreadyResolved);
        }
        if now < market.end_time {
            return Err(Error::MarketClosed);
        }
        if market.oracle_config.provider != oracle.provider() {
            return Err(Error::InvalidOracleConfig);
        }
        let answer = oracle.get_price(&market.oracle_config.feed_id);
        let outcome = match price_outcome(&market.oracle_config, answer) {
            Ok(o) => o,
            Err(e) => {
                return Err(e);
            },
        };
        market.oracle_result = Some(outcome.clone());
        Ok(outcome)
    }

    /// Writes the final outcome once the market has closed and its signal
    /// has been read: the signal's outcome blended with the community tally.
    /// A market is resolved once only.
    pub fn resolve_market(market: &mut Market, now: u64, sequence: u32) -> (r: Result<String, Error>)
        requires
            old(market).wf(),
        ensures
            final(market).wf(),
            match resolve_error(*old(market), now) {
                Some(e) => r == Err::<String, Error>(e) && *final(market) == *old(market),
                None => r matches Ok(s) && {
                    &&& s@ == final_outcome(
                        old(market).outcome_labels(),
                        old(market).votes@,
                        old(market).oracle_result->Some_0@,
                        now,
                        sequence,
                    )
                    &&& final(market).oracle_result matches Some(t) && t@ == s@
                    &&& final(market).resolved
                    &&& same_book(*old(market), *final(market))
                },
            },
    {
        if now < market.end_time {
            return Err(Error::MarketClosed);
        }
        if market.resolved {
            return Err(Error::MarketAlreadyResolved);
        }
        let outcome = match &market.oracle_result {
            Some(signal) => final_outcome_of(&market.outcomes, &market.votes, signal, now, sequence),
            None => {
                return Err(Error::OracleUnavailable);
            },
        };
        market.oracle_result = Some(outcome.clone());
        market.resolved = true;
        Ok(outcome)
    }
}

} // verus!
