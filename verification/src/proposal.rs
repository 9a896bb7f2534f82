//! Proposals, ballots, and the weighted sums a tally is made of.
//!
//! The registry is immutable, so the ballot ledger of a proposal is kept as
//! one slot per registry position: slot `i` holds the choice voter `i` has
//! cast, or nothing. One ballot per voter is then structural, and a re-vote
//! is an overwrite of that voter's slot. The tally of a choice is the sum of
//! the registry weights over the slots holding that choice; the spec
//! functions and lemmas here pin those sums down.

use vstd::prelude::*;
use crate::expiration::Deadline;
use crate::threshold::Tally;

verus! {

/// One voter's choice on one proposal.
#[derive(Clone, Copy, PartialEq, Eq, Structural, Debug)]
pub enum Choice {
    Yes,
    No,
    Abstain,
    Veto,
}

/// The lifecycle state of a proposal. `Rejected`, `Executed` and `Closed`
/// are terminal; `Passed` can only move to `Executed`.
#[derive(Clone, Copy, PartialEq, Eq, Structural, Debug)]
pub enum Status {
    /// Still collecting ballots.
    Open,
    /// The threshold rule is satisfied; execution is authorized.
    Passed,
    /// The rule can no longer be satisfied, or the window expired first.
    Rejected,
    /// The action batch was dispatched, successfully and exactly once.
    Executed,
    /// Closed after expiring without passing; a dead end kept for the record.
    Closed,
}

/// One opaque downstream action: the engine never interprets the payload,
/// it only preserves the count and order of a proposal's batch.
#[derive(PartialEq, Eq, Debug)]
pub struct Action {
    /// The collaborator the action is addressed to.
    pub target: String,
    /// The action's opaque serialized body.
    pub payload: Vec<u8>,
}

/// A permanent record of one governed batch: its text, its actions, its
/// deadline, its ballot ledger, and where it stands in the lifecycle.
/// Proposals are never deleted; closing only marks the dead end.
pub struct Proposal {
    /// Monotonically increasing, starting at 1.
    pub id: u64,
    pub title: String,
    pub description: String,
    /// The registered voter who submitted the proposal.
    pub proposer: String,
    /// The ordered batch of opaque actions under vote.
    pub actions: Vec<Action>,
    /// The instant at which the voting window closes.
    pub deadline: Deadline,
    pub status: Status,
    /// Slot `i` holds the ballot of voter `i` of the registry, if cast.
    pub ballots: Vec<Option<Choice>>,
}

/// The weight a single slot contributes to the pool of choice `c`.
pub open spec fn ballot_weight(b: Option<Choice>, w: u64, c: Choice) -> int {
    if b == Some(c) {
        w as int
    } else {
        0
    }
}

/// The weight a single slot contributes to participation: its full weight if
/// a ballot is cast, whatever the choice.
pub open spec fn cast_weight(b: Option<Choice>, w: u64) -> int {
    if b is Some {
        w as int
    } else {
        0
    }
}

/// The pool of choice `c` over the first `n` slots.
pub open spec fn choice_weight_upto(
    ballots: Seq<Option<Choice>>,
    weights: Seq<u64>,
    c: Choice,
    n: int,
) -> int
    decreases n,
{
    if n <= 0 {
        0
    } else {
        choice_weight_upto(ballots, weights, c, n - 1) + ballot_weight(
            ballots[n - 1],
            weights[n - 1],
            c,
        )
    }
}

/// The pool of choice `c` over the whole ledger.
pub open spec fn choice_weight(ballots: Seq<Option<Choice>>, weights: Seq<u64>, c: Choice) -> int {
    choice_weight_upto(ballots, weights, c, ballots.len() as int)
}

/// The participating weight over the first `n` slots.
pub open spec fn cast_weight_upto(
    ballots: Seq<Option<Choice>>,
    weights: Seq<u64>,
    n: int,
) -> int
    decreases n,
{
    if n <= 0 {
        0
    } else {
        cast_weight_upto(ballots, weights, n - 1) + cast_weight(ballots[n - 1], weights[n - 1])
    }
}

/// The sum of the first `n` registry weights.
pub open spec fn weight_sum_upto(weights: Seq<u64>, n: int) -> int
    decreases n,
{
    if n <= 0 {
        0
    } else {
        weight_sum_upto(weights, n - 1) + weights[n - 1]
    }
}

/// The total weight of a registry: the sum of all its weights.
pub open spec fn weight_sum(weights: Seq<u64>) -> int {
    weight_sum_upto(weights, weights.len() as int)
}

/// The tally of a ballot ledger: each choice's pool, summed over the slots.
pub open spec fn spec_tally_of(ballots: Seq<Option<Choice>>, weights: Seq<u64>) -> Tally {
    Tally {
        yes: choice_weight(ballots, weights, Choice::Yes) as u64,
        no: choice_weight(ballots, weights, Choice::No) as u64,
        abstain: choice_weight(ballots, weights, Choice::Abstain) as u64,
        veto: choice_weight(ballots, weights, Choice::Veto) as u64,
    }
}

/// The ballot ledger a proposal is born with: every slot empty but the
/// proposer's, which holds the implicit founding Yes.
pub open spec fn founding_ballots(n: int, proposer_index: int) -> Seq<Option<Choice>> {
    Seq::new(n as nat, |i: int| if i == proposer_index { Some(Choice::Yes) } else { None })
}

/// Every pool is non-negative.
pub proof fn lemma_choice_weight_nonneg(
    ballots: Seq<Option<Choice>>,
    weights: Seq<u64>,
    c: Choice,
    n: int,
)
    ensures
        0 <= choice_weight_upto(ballots, weights, c, n),
    decreases n,
{
    if n > 0 {
        lemma_choice_weight_nonneg(ballots, weights, c, n - 1);
    }
}

/// The four pools partition the participating weight: each cast ballot
/// counts toward exactly one choice, with its full weight.
pub proof fn lemma_tally_partition(ballots: Seq<Option<Choice>>, weights: Seq<u64>, n: int)
    ensures
        choice_weight_upto(ballots, weights, Choice::Yes, n) + choice_weight_upto(
            ballots,
            weights,
            Choice::No,
            n,
        ) + choice_weight_upto(ballots, weights, Choice::Abstain, n) + choice_weight_upto(
            ballots,
            weights,
            Choice::Veto,
            n,
        ) == cast_weight_upto(ballots, weights, n),
    decreases n,
{
    if n > 0 {
        lemma_tally_partition(ballots, weights, n - 1);
        let b = ballots[n - 1];
        let w = weights[n - 1];
        match b {
            None => {
                assert(cast_weight(b, w) == 0);
            },
            Some(c) => {
                match c {
                    Choice::Yes => {
                        assert(ballot_weight(b, w, Choice::Yes) == w as int);
                    },
                    Choice::No => {
                        assert(ballot_weight(b, w, Choice::No) == w as int);
                    },
                    Choice::Abstain => {
                        assert(ballot_weight(b, w, Choice::Abstain) == w as int);
                    },
                    Choice::Veto => {
                        assert(ballot_weight(b, w, Choice::Veto) == w as int);
                    },
                }
            },
        }
    }
}

/// The participating weight over `n` slots never exceeds the sum of the
/// first `n` registry weights: no voter is ever counted beyond their weight.
pub proof fn lemma_cast_le_weight_sum(ballots: Seq<Option<Choice>>, weights: Seq<u64>, n: int)
    ensures
        cast_weight_upto(ballots, weights, n) <= weight_sum_upto(weights, n),
    decreases n,
{
    if n > 0 {
        lemma_cast_le_weight_sum(ballots, weights, n - 1);
    }
}

/// Weight sums grow with the prefix: the sum of `m` weights is at most the
/// sum of `n >= m` of them.
pub proof fn lemma_weight_sum_monotone(weights: Seq<u64>, m: int, n: int)
    requires
        0 <= m <= n,
    ensures
        weight_sum_upto(weights, m) <= weight_sum_upto(weights, n),
    decreases n,
{
    if m < n {
        lemma_weight_sum_monotone(weights, m, n - 1);
    }
}

/// The bounds a well-formed ledger enjoys: every pool and the whole
/// participating weight fit under the registry's total weight.
pub proof fn lemma_tally_bounds(ballots: Seq<Option<Choice>>, weights: Seq<u64>)
    requires
        ballots.len() == weights.len(),
    ensures
        0 <= choice_weight(ballots, weights, Choice::Yes),
        0 <= choice_weight(ballots, weights, Choice::No),
        0 <= choice_weight(ballots, weights, Choice::Abstain),
        0 <= choice_weight(ballots, weights, Choice::Veto),
        choice_weight(ballots, weights, Choice::Yes) + choice_weight(
            ballots,
            weights,
            Choice::No,
        ) + choice_weight(ballots, weights, Choice::Abstain) + choice_weight(
            ballots,
            weights,
            Choice::Veto,
        ) == cast_weight_upto(ballots, weights, ballots.len() as int),
        cast_weight_upto(ballots, weights, ballots.len() as int) <= weight_sum(weights),
    {
    let n = ballots.len() as int;
    lemma_choice_weight_nonneg(ballots, weights, Choice::Yes, n);
    lemma_choice_weight_nonneg(ballots, weights, Choice::No, n);
    lemma_choice_weight_nonneg(ballots, weights, Choice::Abstain, n);
    lemma_choice_weight_nonneg(ballots, weights, Choice::Veto, n);
    lemma_tally_partition(ballots, weights, n);
    lemma_cast_le_weight_sum(ballots, weights, n);
}

} // verus!
