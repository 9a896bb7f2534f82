//! The governance guarantees, stated and proved as theorems over the spec
//! functions that the engine's contracts are written in.

use vstd::prelude::*;
use crate::engine::{verdict_status, weights_of, Multisig};
use crate::expiration::Instant;
use crate::proposal::{
    ballot_weight, cast_weight, cast_weight_upto, choice_weight, choice_weight_upto, Choice, Status,
};
use crate::threshold::{Tally, Threshold};

verus! {

/// Execution succeeds at most once. `Multisig::commit_execute` returns `Ok`
/// exactly under `can_execute` with a successful dispatch, and leaves the
/// proposal `Executed`; this law says the state it leaves behind never
/// satisfies `can_execute` again, so by `commit_execute`'s contract every
/// subsequent execution attempt on the same id returns `WrongStatus` — never
/// a second dispatch commit.
pub proof fn lemma_execute_at_most_once(
    pre: Multisig,
    post: Multisig,
    proposal_id: u64,
    dispatch_ok: bool,
)
    requires
        pre.can_execute(proposal_id) && dispatch_ok,
        post.has_proposal(proposal_id),
        post.status_of(proposal_id) == Status::Executed,
    ensures
        !post.can_execute(proposal_id),
{
}

/// A tally is recorded as `Passed` if and only if it satisfies the
/// configured rule. The engine's `propose` and `vote` store
/// `verdict_status(threshold.verdict_of(tally, total_weight))`; this law
/// says that status is `Passed` exactly when `passes` holds, whatever the
/// rule — absolute count, absolute percentage, or quorum-gated percentage —
/// and whatever the weights.
pub proof fn lemma_passed_iff_rule(threshold: Threshold, tally: Tally, total_weight: u64)
    ensures
        verdict_status(threshold.verdict_of(tally, total_weight)) == Status::Passed
            <==> threshold.passes(tally, total_weight),
{
}

/// The effect of overwriting one ballot slot on the pool of one choice: the
/// slot's old contribution leaves, its new contribution enters, and nothing
/// else moves.
proof fn lemma_update_choice_upto(
    ballots: Seq<Option<Choice>>,
    weights: Seq<u64>,
    idx: int,
    b2: Option<Choice>,
    c2: Choice,
    n: int,
)
    requires
        0 <= idx < ballots.len(),
        n <= ballots.len(),
    ensures
        choice_weight_upto(ballots.update(idx, b2), weights, c2, n) == choice_weight_upto(
            ballots,
            weights,
            c2,
            n,
        ) + if idx < n {
            ballot_weight(b2, weights[idx], c2) - ballot_weight(ballots[idx], weights[idx], c2)
        } else {
            0
        },
    decreases n,
{
    if n > 0 {
        lemma_update_choice_upto(ballots, weights, idx, b2, c2, n - 1);
    }
}

/// The effect of overwriting one ballot slot on the participating weight.
proof fn lemma_update_cast_upto(
    ballots: Seq<Option<Choice>>,
    weights: Seq<u64>,
    idx: int,
    b2: Option<Choice>,
    n: int,
)
    requires
        0 <= idx < ballots.len(),
        n <= ballots.len(),
    ensures
        cast_weight_upto(ballots.update(idx, b2), weights, n) == cast_weight_upto(
            ballots,
            weights,
            n,
        ) + if idx < n {
            cast_weight(b2, weights[idx]) - cast_weight(ballots[idx], weights[idx])
        } else {
            0
        },
    decreases n,
{
    if n > 0 {
        lemma_update_cast_upto(ballots, weights, idx, b2, n - 1);
    }
}

/// A re-vote overwrites the prior ballot's contribution to the tally: after
/// voter `idx` re-casts as `c`, every pool equals the old pool minus that
/// voter's old contribution plus their single new one, and the voter's whole
/// weight enters participation exactly once — no voter is ever
/// double-counted. `Multisig::vote` updates exactly one slot, so its new
/// tally is related to the old one by precisely these equations.
pub proof fn lemma_revote_overwrites(
    ballots: Seq<Option<Choice>>,
    weights: Seq<u64>,
    idx: int,
    c: Choice,
)
    requires
        0 <= idx < ballots.len(),
        ballots.len() == weights.len(),
    ensures
        forall|c2: Choice|
            choice_weight(ballots.update(idx, Some(c)), weights, c2) == choice_weight(
                ballots,
                weights,
                c2,
            ) - ballot_weight(ballots[idx], weights[idx], c2) + ballot_weight(
                Some(c),
                weights[idx],
                c2,
            ),
        cast_weight_upto(ballots.update(idx, Some(c)), weights, ballots.len() as int)
            == cast_weight_upto(ballots, weights, ballots.len() as int) - cast_weight(
            ballots[idx],
            weights[idx],
        ) + weights[idx],
{
    let n = ballots.len() as int;
    assert forall|c2: Choice|
        choice_weight(ballots.update(idx, Some(c)), weights, c2) == choice_weight(
            ballots,
            weights,
            c2,
        ) - ballot_weight(ballots[idx], weights[idx], c2) + ballot_weight(
            Some(c),
            weights[idx],
            c2,
        ) by {
        lemma_update_choice_upto(ballots, weights, idx, Some(c), c2, n);
    }
    lemma_update_cast_upto(ballots, weights, idx, Some(c), n);
}

/// The engine-level reading of the re-vote law. `Multisig::vote` ensures
/// that a successful ballot updates exactly the voter's own slot of the
/// ledger; this law says that for any such update the new tally carries the
/// voter's registry weight exactly once — their old contribution is gone,
/// whatever it was, and every other voter's contribution is untouched.
pub proof fn lemma_vote_counts_each_voter_once(
    s: Multisig,
    proposal_id: u64,
    addr: Seq<char>,
    c: Choice,
)
    requires
        s.wf(),
        s.has_proposal(proposal_id),
        s.is_member(addr),
    ensures
        ({
            let idx = s.member_index(addr);
            let w = weights_of(s.voters@);
            let ballots = s.proposal_of(proposal_id).ballots@;
            let nb = ballots.update(idx, Some(c));
            forall|c2: Choice|
                choice_weight(nb, w, c2) == choice_weight(ballots, w, c2) - ballot_weight(
                    ballots[idx],
                    w[idx],
                    c2,
                ) + ballot_weight(Some(c), w[idx], c2)
        }),
{
    let idx = s.member_index(addr);
    assert(0 <= idx < s.voters.len());
    lemma_revote_overwrites(s.proposal_of(proposal_id).ballots@, weights_of(s.voters@), idx, c);
}

/// An expired open proposal can be closed but never executed, whatever its
/// tally: `can_close` holds of it and `can_execute` does not, so by the
/// contracts of `commit_execute` and `vote` no late-arriving ballot and no
/// execution attempt can touch it — `close` is its only exit. Moreover a
/// well-formed engine stores `Open` only while the tally is still pending,
/// so as of any instant past the deadline the proposal reads `Rejected`,
/// never `Passed`.
pub proof fn lemma_expired_open_closes_never_executes(s: Multisig, proposal_id: u64, now: Instant)
    requires
        s.wf(),
        s.has_proposal(proposal_id),
        s.status_of(proposal_id) == Status::Open,
        s.proposal_of(proposal_id).deadline.spec_expired(now),
    ensures
        s.can_close(proposal_id, now),
        !s.can_execute(proposal_id),
        s.spec_status_as_of(proposal_id, now) == Status::Rejected,
{
    let t = s.spec_tally(proposal_id);
    assert(s.threshold.verdict_of(t, s.total_weight) == crate::threshold::Verdict::Pending);
    assert(!s.threshold.passes(t, s.total_weight));
}

} // verus!
