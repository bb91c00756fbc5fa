use vstd::prelude::*;

use crate::contract::{
    dispute_applied, dispute_error, fetch_error, vote_applied, vote_error, MIN_DISPUTE_STAKE,
};
use crate::resolution::{count_for, final_outcome, leader};
use crate::types::{Error, Market};

verus! {

/// One dispute call with `d` = (participant, stake, time) takes market `a` to
/// market `b`: unchanged when refused, else as an accepted dispute leaves it.
pub open spec fn dispute_step(a: Market, b: Market, d: (String, i128, u64)) -> bool {
    match dispute_error(a, d.0@, d.1, d.2) {
        Some(_) => b == a,
        None => dispute_applied(a, b, d.0, d.1, d.2),
    }
}

/// `ms` are the markets seen along a run of the dispute calls `ds`.
pub open spec fn dispute_run(ms: Seq<Market>, ds: Seq<(String, i128, u64)>) -> bool {
    &&& ms.len() == ds.len() + 1
    &&& forall|k: int| 0 <= k < ds.len() ==> #[trigger] dispute_step(ms[k], ms[k + 1], ds[k])
}

/// Along any run of dispute calls, accepted or refused, the deadline never
/// moves earlier.
pub proof fn law_dispute_end_time_monotone(
    ms: Seq<Market>,
    ds: Seq<(String, i128, u64)>,
    i: int,
    j: int,
)
    requires
        dispute_run(ms, ds),
        0 <= i <= j < ms.len(),
    ensures
        ms[i].end_time <= ms[j].end_time,
    decreases j - i,
{
    if i < j {
        law_dispute_end_time_monotone(ms, ds, i, j - 1);
        let k = j - 1;
        assert(dispute_step(ms[k], ms[k + 1], ds[k]));
    }
}

/// One vote call with `v` = (participant, outcome, stake, time) is accepted
/// and takes market `a` to market `b`.
pub open spec fn vote_step(a: Market, b: Market, v: (String, String, i128, u64)) -> bool {
    &&& vote_error(a, v.1@, v.2, v.3) is None
    &&& vote_applied(a, b, v.0, v.1, v.2)
}

/// `ms` are the markets seen along a run of the vote calls `bs`, every one
/// of them accepted.
pub open spec fn vote_run(ms: Seq<Market>, bs: Seq<(String, String, i128, u64)>) -> bool {
    &&& ms.len() == bs.len() + 1
    &&& forall|k: int| 0 <= k < bs.len() ==> #[trigger] vote_step(ms[k], ms[k + 1], bs[k])
}

/// The sum of the stakes of a list of votes.
pub open spec fn stake_sum(bs: Seq<(String, String, i128, u64)>) -> int
    decreases bs.len(),
{
    if bs.len() == 0 {
        0
    } else {
        stake_sum(bs.drop_last()) + bs.last().2
    }
}

/// After a run of accepted votes the total stake has grown by exactly the
/// sum of their stakes.
pub proof fn law_total_staked_is_sum(ms: Seq<Market>, bs: Seq<(String, String, i128, u64)>)
    requires
        vote_run(ms, bs),
    ensures
        ms.last().total_staked == ms[0].total_staked + stake_sum(bs),
    decreases bs.len(),
{
    if bs.len() > 0 {
        let n = bs.len() - 1;
        let ms1 = ms.drop_last();
        let bs1 = bs.drop_last();
        assert forall|k: int| 0 <= k < bs1.len() implies #[trigger] vote_step(
            ms1[k],
            ms1[k + 1],
            bs1[k],
        ) by {
            assert(vote_step(ms[k], ms[k + 1], bs[k]));
            assert(ms1[k] == ms[k] && ms1[k + 1] == ms[k + 1] && bs1[k] == bs[k]);
        }
        assert(ms1.len() == bs1.len() + 1);
        law_total_staked_is_sum(ms1, bs1);
        assert(vote_step(ms[n], ms[n + 1], bs[n]));
    }
}

/// Once a market holds a signal result, fetching it again is refused.
pub proof fn law_second_fetch_refused(m: Market, now: u64)
    requires
        m.oracle_result is Some,
    ensures
        fetch_error(m, now) == Some(Error::MarketAlreadyResolved),
{
}

/// A market nobody voted on resolves to its signal's outcome.
pub proof fn law_no_votes_keeps_signal(
    outs: Seq<Seq<char>>,
    votes: Seq<(String, String)>,
    signal: Seq<char>,
    now: u64,
    sequence: u32,
)
    requires
        votes.len() == 0,
    ensures
        final_outcome(outs, votes, signal, now, sequence) == signal,
{
    lemma_leader_of_no_votes(outs, votes, outs.len());
}

proof fn lemma_leader_of_no_votes(outs: Seq<Seq<char>>, votes: Seq<(String, String)>, n: nat)
    requires
        votes.len() == 0,
        n <= outs.len(),
    ensures
        leader(outs, votes, n) == (-1int, 0nat),
    decreases n,
{
    if n > 0 {
        lemma_leader_of_no_votes(outs, votes, (n - 1) as nat);
        assert(count_for(votes, outs[n - 1]) == 0);
    }
}

/// Once a market has closed, a dispute below the minimum stake is refused
/// for lack of stake; a refused dispute leaves the market as it was.
pub proof fn law_small_dispute_refused(m: Market, user: Seq<char>, stake: i128, now: u64)
    requires
        now >= m.end_time,
        stake < MIN_DISPUTE_STAKE,
    ensures
        dispute_error(m, user, stake, now) == Some(Error::InsufficientStake),
{
}

} // verus!
