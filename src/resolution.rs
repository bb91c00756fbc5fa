use vstd::prelude::*;

use crate::types::labels;

verus! {

/// How many of the votes chose `label`.
pub open spec fn count_for(votes: Seq<(String, String)>, label: Seq<char>) -> nat
    decreases votes.len(),
{
    if votes.len() == 0 {
        0
    } else {
        count_for(votes.drop_last(), label) + if votes.last().1@ == label {
            1nat
        } else {
            0nat
        }
    }
}

/// Over the first `n` declared outcomes: the index of the first one to reach
/// the largest vote count, and that count. The index is -1 while no outcome
/// among them has a vote.
pub open spec fn leader(outs: Seq<Seq<char>>, votes: Seq<(String, String)>, n: nat) -> (int, nat)
    decreases n,
{
    if n == 0 {
        (-1, 0)
    } else {
        let prev = leader(outs, votes, (n - 1) as nat);
        let c = count_for(votes, outs[n - 1]);
        if c > prev.1 {
            ((n - 1) as int, c)
        } else {
            prev
        }
    }
}

/// The community's outcome: the declared outcome with the most votes, the
/// earliest declared one among equals; the signal's outcome when nobody
/// voted for a declared outcome.
pub open spec fn community_outcome(
    outs: Seq<Seq<char>>,
    votes: Seq<(String, String)>,
    signal: Seq<char>,
) -> Seq<char> {
    let l = leader(outs, votes, outs.len());
    if l.0 < 0 {
        signal
    } else {
        outs[l.0]
    }
}

/// The draw in `[0, 100)` taken from the ledger's clock and sequence number.
pub open spec fn draw(now: u64, sequence: u32) -> int {
    (now as int + sequence as int) % 100
}

/// The winning count is a strict majority of at least five votes.
pub open spec fn qualified(max_votes: nat, total_votes: nat) -> bool {
    max_votes * 100 > total_votes * 50 && total_votes >= 5
}

/// The final outcome of a market: the signal's, unless the community
/// disagrees with a qualified majority and the draw falls below 30, in which
/// case the community's.
pub open spec fn final_outcome(
    outs: Seq<Seq<char>>,
    votes: Seq<(String, String)>,
    signal: Seq<char>,
    now: u64,
    sequence: u32,
) -> Seq<char> {
    let community = community_outcome(outs, votes, signal);
    let max_votes = leader(outs, votes, outs.len()).1;
    let total_votes = votes.len();
    if community == signal {
        signal
    } else if total_votes == 0 {
        signal
    } else if qualified(max_votes, total_votes) && draw(now, sequence) < 30 {
        community
    } else {
        signal
    }
}

proof fn lemma_count_le(votes: Seq<(String, String)>, label: Seq<char>)
    ensures
        count_for(votes, label) <= votes.len(),
    decreases votes.len(),
{
    if votes.len() > 0 {
        lemma_count_le(votes.drop_last(), label);
    }
}

proof fn lemma_leader_le(outs: Seq<Seq<char>>, votes: Seq<(String, String)>, n: nat)
    requires
        n <= outs.len(),
    ensures
        leader(outs, votes, n).1 <= votes.len(),
        -1 <= leader(outs, votes, n).0 < n,
        leader(outs, votes, n).0 < 0 <==> leader(outs, votes, n).1 == 0,
    decreases n,
{
    if n > 0 {
        lemma_leader_le(outs, votes, (n - 1) as nat);
        lemma_count_le(votes, outs[n - 1]);
    }
}

/// Counts the votes for `label`.
pub fn count_votes(votes: &Vec<(String, String)>, label: &String) -> (r: usize)
    ensures
        r == count_for(votes@, label@),
{
    let mut count: usize = 0;
    let mut j: usize = 0;
    while j < votes.len()
        invariant
            j <= votes@.len(),
            count == count_for(votes@.take(j as int), label@),
            count <= j,
        decreases votes@.len() - j,
    {
        assert(votes@.take(j as int + 1).drop_last() =~= votes@.take(j as int));
        if votes[j].1 == *label {
            count = count + 1;
        }
        j = j + 1;
    }
    assert(votes@.take(votes@.len() as int) =~= votes@);
    count
}

/// The community tally over the declared outcomes: the index of the first
/// outcome with the most votes (`None` when no declared outcome has a vote)
/// and that number of votes.
pub fn community_tally(outcomes: &Vec<String>, votes: &Vec<(String, String)>) -> (r: (
    Option<usize>,
    usize,
))
    ensures
        r.1 == leader(labels(outcomes@), votes@, outcomes@.len()).1,
        r.0 is None <==> leader(labels(outcomes@), votes@, outcomes@.len()).0 < 0,
        r.0 matches Some(i) ==> i == leader(labels(outcomes@), votes@, outcomes@.len()).0
            && i < outcomes@.len(),
{
    let ghost outs = labels(outcomes@);
    let mut best: Option<usize> = None;
    let mut max_votes: usize = 0;
    let mut i: usize = 0;
    while i < outcomes.len()
        invariant
            i <= outcomes@.len(),
            outs == labels(outcomes@),
            outs.len() == outcomes@.len(),
            max_votes == leader(outs, votes@, i as nat).1,
            best is None <==> leader(outs, votes@, i as nat).0 < 0,
            best matches Some(b) ==> b == leader(outs, votes@, i as nat).0 && b < i,
        decreases outcomes@.len() - i,
    {
        proof {
            lemma_leader_le(outs, votes@, i as nat);
        }
        let c = count_votes(votes, &outcomes[i]);
        assert(outs[i as int] == outcomes@[i as int]@);
        if c > max_votes {
            max_votes = c;
            best = Some(i);
        }
        i = i + 1;
    }
    (best, max_votes)
}

/// Blends the signal's outcome with the community tally into the final
/// outcome of a market.
pub fn final_outcome_of(
    outcomes: &Vec<String>,
    votes: &Vec<(String, String)>,
    signal: &String,
    now: u64,
    sequence: u32,
) -> (r: String)
    ensures
        r@ == final_outcome(labels(outcomes@), votes@, signal@, now, sequence),
{
    let (best, max_votes) = community_tally(outcomes, votes);
    proof {
        lemma_leader_le(labels(outcomes@), votes@, outcomes@.len());
    }
    let community = match best {
        Some(i) => outcomes[i].clone(),
        None => signal.clone(),
    };
    if community == *signal {
        return signal.clone();
    }
    let total_votes = votes.len();
    if total_votes == 0 {
        return signal.clone();
    }
    if (max_votes as u128) * 100 > (total_votes as u128) * 50 && total_votes >= 5 {
        let combined: u128 = now as u128 + sequence as u128;
        let random_value: u128 = combined % 100;
        if random_value < 30 {
            return community;
        }
    }
    signal.clone()
}

} // verus!
