//! The governance engine: the voter registry, the proposal store, and the
//! Propose / Vote / Execute / Close state machine.
//!
//! The engine is invoked synchronously, one call at a time, by a host that
//! serializes calls; every transition re-validates against the stored state
//! at the start of the call. Execution of a passed proposal is a two-step
//! commit protocol: [`Multisig::begin_execute`] reads the batch for the
//! external dispatch adapter, and [`Multisig::commit_execute`] records the
//! adapter's verdict — the stored `Passed` status is the single source of
//! truth that prevents a second dispatch.

use vstd::prelude::*;
use crate::error::Error;
use crate::expiration::{Deadline, Duration, Instant};
use crate::proposal::{
    cast_weight_upto, choice_weight_upto, founding_ballots, lemma_cast_le_weight_sum,
    lemma_choice_weight_nonneg, lemma_tally_partition, lemma_tally_bounds,
    lemma_weight_sum_monotone, spec_tally_of, weight_sum, weight_sum_upto, Action, Choice, Proposal,
    Status,
};
use crate::threshold::{Tally, Threshold, Verdict};

verus! {

/// One registered principal and their immutable voting weight.
pub struct Voter {
    pub addr: String,
    pub weight: u64,
}

/// The weights of a registry, in registry order.
pub open spec fn weights_of(voters: Seq<Voter>) -> Seq<u64> {
    voters.map_values(|v: Voter| v.weight)
}

/// No two registry entries share an address.
pub open spec fn unique_addrs(voters: Seq<Voter>) -> bool {
    forall|i: int, j: int|
        0 <= i < j < voters.len() ==> voters[i].addr@ != voters[j].addr@
}

/// Whether a registry and a threshold make a coherent configuration: the
/// registry is non-empty with unique addresses, its total weight is positive
/// and representable, and the threshold's parameters are valid against it.
pub open spec fn config_valid(voters: Seq<Voter>, threshold: Threshold) -> bool {
    &&& voters.len() > 0
    &&& unique_addrs(voters)
    &&& 1 <= weight_sum(weights_of(voters))
    &&& weight_sum(weights_of(voters)) <= u64::MAX
    &&& threshold.spec_valid(weight_sum(weights_of(voters)) as u64)
}

/// How a verdict on an open proposal's tally is recorded in its status.
pub open spec fn verdict_status(v: Verdict) -> Status {
    match v {
        Verdict::Pending => Status::Open,
        Verdict::Passed => Status::Passed,
        Verdict::Rejected => Status::Rejected,
    }
}

/// The whole multisig: configuration fixed at construction, plus the
/// permanent proposal store.
pub struct Multisig {
    /// The immutable registry, fixed at construction.
    pub voters: Vec<Voter>,
    /// The sum of all registry weights, used in all threshold math.
    pub total_weight: u64,
    /// The configured pass rule.
    pub threshold: Threshold,
    /// The default (and maximum) voting window of a new proposal.
    pub max_voting_period: Duration,
    /// Proposal `id` lives at position `id - 1`; proposals are never removed.
    pub proposals: Vec<Proposal>,
}

impl Multisig {
    /// The engine's invariant: the configuration is coherent, the cached
    /// total weight is the registry sum, and every stored proposal carries
    /// its position as id and one ballot slot per voter. A proposal is
    /// stored `Open` only while its tally is still pending — every mutation
    /// persists a decisive verdict at once — so an open proposal never
    /// silently holds a passing tally.
    pub open spec fn wf(self) -> bool {
        &&& config_valid(self.voters@, self.threshold)
        &&& self.total_weight == weight_sum(weights_of(self.voters@))
        &&& forall|i: int|
            0 <= i < self.proposals.len() ==> {
                &&& (#[trigger] self.proposals@[i]).id == i + 1
                &&& self.proposals@[i].ballots.len() == self.voters.len()
                &&& (self.proposals@[i].status == Status::Open ==> self.threshold.verdict_of(
                    spec_tally_of(self.proposals@[i].ballots@, weights_of(self.voters@)),
                    self.total_weight,
                ) == Verdict::Pending)
            }
    }

    /// Whether `addr` is a registered voter.
    pub open spec fn is_member(self, addr: Seq<char>) -> bool {
        exists|i: int| 0 <= i < self.voters.len() && self.voters@[i].addr@ == addr
    }

    /// The registry position of a member's address. Meaningful only when
    /// `is_member` holds; unique addresses make it well-defined.
    pub open spec fn member_index(self, addr: Seq<char>) -> int {
        choose|i: int| 0 <= i < self.voters.len() && self.voters@[i].addr@ == addr
    }

    /// A member's registry weight.
    pub open spec fn member_weight(self, addr: Seq<char>) -> u64 {
        self.voters@[self.member_index(addr)].weight
    }

    /// Whether a proposal with this id has been stored. Ids are allocated
    /// densely from 1, so this is a range check.
    pub open spec fn has_proposal(self, id: u64) -> bool {
        1 <= id && id <= self.proposals.len()
    }

    /// The stored record of proposal `id` (meaningful under `has_proposal`).
    pub open spec fn proposal_of(self, id: u64) -> Proposal {
        self.proposals@[id - 1]
    }

    /// The stored status of proposal `id`.
    pub open spec fn status_of(self, id: u64) -> Status {
        self.proposal_of(id).status
    }

    /// The current tally of proposal `id`: each choice's pool summed from
    /// the ballot ledger and the registry weights.
    pub open spec fn spec_tally(self, id: u64) -> Tally {
        spec_tally_of(self.proposal_of(id).ballots@, weights_of(self.voters@))
    }

    /// In a registry with unique addresses, any position whose address
    /// matches is the member's one position, so lookups agree with the
    /// `member_index` / `member_weight` specification.
    pub proof fn lemma_member_index_agrees(self, i: int, addr: Seq<char>)
        requires
            unique_addrs(self.voters@),
            0 <= i < self.voters.len(),
            self.voters@[i].addr@ == addr,
        ensures
            self.is_member(addr),
            self.member_index(addr) == i,
            self.member_weight(addr) == self.voters@[i].weight,
    {
        assert(self.is_member(addr));
        let k = self.member_index(addr);
        if k != i {
            if k < i {
                assert(self.voters@[k].addr@ != self.voters@[i].addr@);
            } else {
                assert(self.voters@[i].addr@ != self.voters@[k].addr@);
            }
        }
    }

    /// Builds the engine. Fails with `InvalidConfiguration` — and only
    /// then — when the registry is empty, an address repeats, the total
    /// weight is zero or unrepresentable, or the threshold's parameters are
    /// out of range for the registry; nothing is ever constructed from an
    /// invalid configuration.
    pub fn new(voters: Vec<Voter>, threshold: Threshold, max_voting_period: Duration) -> (r:
        Result<Multisig, Error>)
        ensures
            r is Ok <==> config_valid(voters@, threshold),
            match r {
                Ok(m) => {
                    &&& m.wf()
                    &&& m.voters == voters
                    &&& m.threshold == threshold
                    &&& m.max_voting_period == max_voting_period
                    &&& m.proposals@.len() == 0
                    &&& m.total_weight == weight_sum(weights_of(voters@))
                },
                Err(e) => e == Error::InvalidConfiguration,
            },
    {
        let n = voters.len();
        if n == 0 {
            return Err(Error::InvalidConfiguration);
        }
        let mut i: usize = 1;
        while i < n
            invariant
                1 <= i <= n,
                forall|a: int, b: int|
                    0 <= a < b < i ==> voters@[a].addr@ != voters@[b].addr@,
            decreases n - i,
        {
            let mut j: usize = 0;
            while j < i
                invariant
                    0 <= j <= i,
                    forall|b: int| 0 <= b < j ==> voters@[b].addr@ != voters@[i as int].addr@,
                decreases i - j,
            {
                if voters[j].addr == voters[i].addr {
                    return Err(Error::InvalidConfiguration);
                }
                j += 1;
            }
            i += 1;
        }
        let ghost ws = weights_of(voters@);
        let mut acc: u128 = 0;
        let mut k: usize = 0;
        while k < n
            invariant
                0 <= k <= n,
                acc == weight_sum_upto(ws, k as int),
                acc <= (k as int) * 0xffff_ffff_ffff_ffffu128,
            decreases n - k,
        {
            acc = acc + voters[k].weight as u128;
            k += 1;
        }
        if acc == 0 || acc > u64::MAX as u128 {
            return Err(Error::InvalidConfiguration);
        }
        let total: u64 = acc as u64;
        match threshold.validate(total) {
            Err(e) => Err(e),
            Ok(()) => Ok(
                Multisig {
                    voters,
                    total_weight: total,
                    threshold,
                    max_voting_period,
                    proposals: Vec::new(),
                },
            ),
        }
    }

    /// Looks the address up in the registry; the returned position is the
    /// first (and, with unique addresses, only) match.
    pub fn find_voter(&self, addr: &String) -> (r: Option<usize>)
        ensures
            match r {
                Some(i) => {
                    &&& i < self.voters.len()
                    &&& self.voters@[i as int].addr@ == addr@
                    &&& forall|j: int| 0 <= j < i ==> self.voters@[j].addr@ != addr@
                },
                None => !self.is_member(addr@),
            },
    {
        let n = self.voters.len();
        let mut i: usize = 0;
        while i < n
            invariant
                0 <= i <= n,
                forall|j: int| 0 <= j < i ==> self.voters@[j].addr@ != addr@,
            decreases n - i,
        {
            if self.voters[i].addr == *addr {
                return Some(i);
            }
            i += 1;
        }
        None
    }

    /// Recomputes a ledger's tally from scratch: one pass over the slots,
    /// summing each choice's pool. The registry's total weight bounds every
    /// pool, so no sum can overflow.
    pub fn compute_tally(voters: &Vec<Voter>, ballots: &Vec<Option<Choice>>) -> (t: Tally)
        requires
            ballots.len() == voters.len(),
            weight_sum(weights_of(voters@)) <= u64::MAX,
        ensures
            t == spec_tally_of(ballots@, weights_of(voters@)),
            t.participating() == cast_weight_upto(ballots@, weights_of(voters@), ballots@.len() as int),
            t.participating() <= weight_sum(weights_of(voters@)),
    {
        let ghost ws = weights_of(voters@);
        let n = ballots.len();
        let mut yes: u64 = 0;
        let mut no: u64 = 0;
        let mut abstain: u64 = 0;
        let mut veto: u64 = 0;
        let mut i: usize = 0;
        while i < n
            invariant
                0 <= i <= n,
                yes == choice_weight_upto(ballots@, ws, Choice::Yes, i as int),
                no == choice_weight_upto(ballots@, ws, Choice::No, i as int),
                abstain == choice_weight_upto(ballots@, ws, Choice::Abstain, i as int),
                veto == choice_weight_upto(ballots@, ws, Choice::Veto, i as int),
            decreases n - i,
        {
            proof {
                lemma_tally_partition(ballots@, ws, i + 1);
                lemma_cast_le_weight_sum(ballots@, ws, i + 1);
                lemma_weight_sum_monotone(ws, i + 1, n as int);
                lemma_choice_weight_nonneg(ballots@, ws, Choice::Yes, i + 1);
                lemma_choice_weight_nonneg(ballots@, ws, Choice::No, i + 1);
                lemma_choice_weight_nonneg(ballots@, ws, Choice::Abstain, i + 1);
                lemma_choice_weight_nonneg(ballots@, ws, Choice::Veto, i + 1);
            }
            match ballots[i] {
                None => {},
                Some(c) => {
                    let w = voters[i].weight;
                    match c {
                        Choice::Yes => {
                            yes = yes + w;
                        },
                        Choice::No => {
                            no = no + w;
                        },
                        Choice::Abstain => {
                            abstain = abstain + w;
                        },
                        Choice::Veto => {
                            veto = veto + w;
                        },
                    }
                },
            }
            i += 1;
        }
        proof {
            lemma_tally_bounds(ballots@, ws);
        }
        Tally { yes, no, abstain, veto }
    }

    /// The deadline a new proposal gets: the caller's custom one if supplied,
    /// else the default computed from the configured voting window.
    pub open spec fn spec_chosen_deadline(self, now: Instant, latest: Option<Deadline>) -> Deadline {
        match latest {
            None => self.max_voting_period.spec_deadline(now),
            Some(d) => d,
        }
    }

    /// Whether a caller-supplied custom deadline is acceptable: absent, or of
    /// the configured window's kind and no later than the default deadline.
    pub open spec fn spec_latest_ok(self, now: Instant, latest: Option<Deadline>) -> bool {
        match latest {
            None => true,
            Some(d) => d.spec_at_most(self.max_voting_period.spec_deadline(now)),
        }
    }

    /// Submits a proposal: stores it open with its computed deadline, casts
    /// the proposer's implicit founding Yes ballot, and evaluates the
    /// threshold at once — a proposer whose weight alone satisfies the rule
    /// creates the proposal already `Passed`.
    ///
    /// Fails with `Unauthorized` when the proposer is not registered, with
    /// `EmptyProposal` when the action batch is empty (nothing is stored),
    /// and with `InvalidConfiguration` when a custom deadline mismatches the
    /// configured window's kind or lies past the default deadline.
    pub fn propose(
        &mut self,
        proposer: String,
        title: String,
        description: String,
        actions: Vec<Action>,
        now: Instant,
        latest: Option<Deadline>,
    ) -> (r: Result<u64, Error>)
        requires
            old(self).wf(),
            old(self).proposals.len() < u64::MAX,
        ensures
            final(self).wf(),
            !old(self).is_member(proposer@) ==> r == Err::<u64, Error>(Error::Unauthorized)
                && *final(self) == *old(self),
            old(self).is_member(proposer@) && actions@.len() == 0 ==> r == Err::<u64, Error>(
                Error::EmptyProposal,
            ) && *final(self) == *old(self),
            old(self).is_member(proposer@) && actions@.len() > 0 && !old(self).spec_latest_ok(
                now,
                latest,
            ) ==> r == Err::<u64, Error>(Error::InvalidConfiguration) && *final(self) == *old(self),
            old(self).is_member(proposer@) && actions@.len() > 0 && old(self).spec_latest_ok(
                now,
                latest,
            ) ==> ({
                let pre = *old(self);
                let post = *final(self);
                let id = (pre.proposals.len() + 1) as u64;
                let fb = founding_ballots(pre.voters.len() as int, pre.member_index(proposer@));
                let t = spec_tally_of(fb, weights_of(pre.voters@));
                let st = verdict_status(pre.threshold.verdict_of(t, pre.total_weight));
                &&& r == Ok::<u64, Error>(id)
                &&& post.voters == pre.voters
                &&& post.threshold == pre.threshold
                &&& post.total_weight == pre.total_weight
                &&& post.max_voting_period == pre.max_voting_period
                &&& post.proposals.len() == pre.proposals.len() + 1
                &&& forall|j: int|
                    0 <= j < pre.proposals.len() ==> post.proposals@[j] == pre.proposals@[j]
                &&& post.proposal_of(id).id == id
                &&& post.proposal_of(id).title == title
                &&& post.proposal_of(id).description == description
                &&& post.proposal_of(id).proposer == proposer
                &&& post.proposal_of(id).actions == actions
                &&& post.proposal_of(id).deadline == pre.spec_chosen_deadline(now, latest)
                &&& post.proposal_of(id).ballots@ == fb
                &&& post.proposal_of(id).status == st
                &&& (post.proposal_of(id).status == Status::Passed <==> pre.threshold.passes(
                    t,
                    pre.total_weight,
                ))
            }),
    {
        let idx: usize = match self.find_voter(&proposer) {
            None => {
                return Err(Error::Unauthorized);
            },
            Some(i) => i,
        };
        proof {
            self.lemma_member_index_agrees(idx as int, proposer@);
        }
        if actions.len() == 0 {
            return Err(Error::EmptyProposal);
        }
        let default_deadline = self.max_voting_period.deadline(now);
        let deadline: Deadline = match latest {
            None => default_deadline,
            Some(d) => {
                if d.at_most(&default_deadline) {
                    d
                } else {
                    return Err(Error::InvalidConfiguration);
                }
            },
        };
        let n = self.voters.len();
        let mut ballots: Vec<Option<Choice>> = Vec::new();
        let mut i: usize = 0;
        while i < n
            invariant
                0 <= i <= n,
                ballots@.len() == i,
                forall|j: int| 0 <= j < i ==> ballots@[j] is None,
            decreases n - i,
        {
            ballots.push(None);
            i += 1;
        }
        ballots[idx] = Some(Choice::Yes);
        proof {
            assert(ballots@ =~= founding_ballots(n as int, idx as int));
        }
        let t = Self::compute_tally(&self.voters, &ballots);
        let v = self.threshold.evaluate(&t, self.total_weight);
        let status = match v {
            Verdict::Pending => Status::Open,
            Verdict::Passed => Status::Passed,
            Verdict::Rejected => Status::Rejected,
        };
        let id: u64 = self.proposals.len() as u64 + 1;
        let record = Proposal {
            id,
            title,
            description,
            proposer,
            actions,
            deadline,
            status,
            ballots,
        };
        self.proposals.push(record);
        Ok(id)
    }

    /// Casts (or re-casts) a ballot and re-evaluates the threshold on the new
    /// tally, persisting a `Passed` or `Rejected` outcome at once. Returns
    /// the proposal's status after the ballot.
    ///
    /// Fails with `NotFound` for an unknown id, `Unauthorized` for a
    /// non-member — never touching the tally — `Expired` at or past the
    /// deadline, and `AlreadyResolved` when the proposal is no longer open.
    /// A member's re-vote while the proposal is open overwrites their
    /// earlier ballot's contribution; no voter is ever counted twice.
    pub fn vote(&mut self, proposal_id: u64, voter: &String, choice: Choice, now: Instant) -> (r:
        Result<Status, Error>)
        requires
            old(self).wf(),
        ensures
            final(self).wf(),
            !old(self).has_proposal(proposal_id) ==> r == Err::<Status, Error>(Error::NotFound)
                && *final(self) == *old(self),
            old(self).has_proposal(proposal_id) && !old(self).is_member(voter@) ==> r == Err::<
                Status,
                Error,
            >(Error::Unauthorized) && *final(self) == *old(self),
            old(self).has_proposal(proposal_id) && old(self).is_member(voter@) && old(
                self,
            ).proposal_of(proposal_id).deadline.spec_expired(now) ==> r == Err::<Status, Error>(
                Error::Expired,
            ) && *final(self) == *old(self),
            old(self).has_proposal(proposal_id) && old(self).is_member(voter@) && !old(
                self,
            ).proposal_of(proposal_id).deadline.spec_expired(now) && old(self).status_of(
                proposal_id,
            ) != Status::Open ==> r == Err::<Status, Error>(Error::AlreadyResolved) && *final(self)
                == *old(self),
            old(self).has_proposal(proposal_id) && old(self).is_member(voter@) && !old(
                self,
            ).proposal_of(proposal_id).deadline.spec_expired(now) && old(self).status_of(
                proposal_id,
            ) == Status::Open ==> ({
                let pre = *old(self);
                let post = *final(self);
                let nb = pre.proposal_of(proposal_id).ballots@.update(
                    pre.member_index(voter@),
                    Some(choice),
                );
                let t = spec_tally_of(nb, weights_of(pre.voters@));
                let st = verdict_status(pre.threshold.verdict_of(t, pre.total_weight));
                &&& r == Ok::<Status, Error>(st)
                &&& post.voters == pre.voters
                &&& post.threshold == pre.threshold
                &&& post.total_weight == pre.total_weight
                &&& post.max_voting_period == pre.max_voting_period
                &&& post.proposals.len() == pre.proposals.len()
                &&& forall|j: int|
                    0 <= j < pre.proposals.len() && j != proposal_id - 1 ==> post.proposals@[j]
                        == pre.proposals@[j]
                &&& post.proposal_of(proposal_id).id == pre.proposal_of(proposal_id).id
                &&& post.proposal_of(proposal_id).title == pre.proposal_of(proposal_id).title
                &&& post.proposal_of(proposal_id).description == pre.proposal_of(
                    proposal_id,
                ).description
                &&& post.proposal_of(proposal_id).proposer == pre.proposal_of(
                    proposal_id,
                ).proposer
                &&& post.proposal_of(proposal_id).actions == pre.proposal_of(proposal_id).actions
                &&& post.proposal_of(proposal_id).deadline == pre.proposal_of(
                    proposal_id,
                ).deadline
                &&& post.proposal_of(proposal_id).ballots@ == nb
                &&& post.proposal_of(proposal_id).status == st
                &&& (post.status_of(proposal_id) == Status::Passed <==> pre.threshold.passes(
                    t,
                    pre.total_weight,
                ))
            }),
    {
        if proposal_id == 0 || proposal_id > self.proposals.len() as u64 {
            return Err(Error::NotFound);
        }
        let pidx: usize = (proposal_id - 1) as usize;
        let idx: usize = match self.find_voter(voter) {
            None => {
                return Err(Error::Unauthorized);
            },
            Some(i) => i,
        };
        proof {
            self.lemma_member_index_agrees(idx as int, voter@);
        }
        if self.proposals[pidx].deadline.is_expired(now) {
            return Err(Error::Expired);
        }
        match self.proposals[pidx].status {
            Status::Open => {},
            _ => {
                return Err(Error::AlreadyResolved);
            },
        }
        self.proposals[pidx].ballots[idx] = Some(choice);
        let t = Self::compute_tally(&self.voters, &self.proposals[pidx].ballots);
        let v = self.threshold.evaluate(&t, self.total_weight);
        let status = match v {
            Verdict::Pending => Status::Open,
            Verdict::Passed => Status::Passed,
            Verdict::Rejected => Status::Rejected,
        };
        self.proposals[pidx].status = status;
        Ok(status)
    }

    /// Whether execution of proposal `id` is authorized: the stored status —
    /// the single source of truth — is `Passed`.
    pub open spec fn can_execute(self, id: u64) -> bool {
        self.has_proposal(id) && self.status_of(id) == Status::Passed
    }

    /// Whether proposal `id` can be closed as of `now`: still open, and its
    /// voting window has expired without the rule having been satisfied.
    pub open spec fn can_close(self, id: u64, now: Instant) -> bool {
        self.has_proposal(id) && self.status_of(id) == Status::Open && self.proposal_of(
            id,
        ).deadline.spec_expired(now)
    }

    /// First step of the execute commit protocol: reads the action batch of
    /// a passed proposal for the dispatch adapter. Mutates nothing; fails
    /// with `NotFound` for an unknown id and `WrongStatus` unless the stored
    /// status is `Passed`.
    pub fn begin_execute(&self, proposal_id: u64) -> (r: Result<&Vec<Action>, Error>)
        ensures
            r is Ok <==> self.can_execute(proposal_id),
            match r {
                Ok(batch) => *batch == self.proposal_of(proposal_id).actions,
                Err(e) => if !self.has_proposal(proposal_id) {
                    e == Error::NotFound
                } else {
                    e == Error::WrongStatus
                },
            },
    {
        if proposal_id == 0 || proposal_id > self.proposals.len() as u64 {
            return Err(Error::NotFound);
        }
        let pidx: usize = (proposal_id - 1) as usize;
        match self.proposals[pidx].status {
            Status::Passed => Ok(&self.proposals[pidx].actions),
            _ => Err(Error::WrongStatus),
        }
    }

    /// Second step of the execute commit protocol: records the dispatch
    /// adapter's verdict. On success the proposal becomes `Executed` — and
    /// only then, so dispatch can never be committed twice. On adapter
    /// failure the call fails with `DispatchFailed` and the proposal stays
    /// `Passed`, so execution may be retried. Fails with `NotFound` for an
    /// unknown id and `WrongStatus` unless the stored status is `Passed`.
    pub fn commit_execute(&mut self, proposal_id: u64, dispatch_ok: bool) -> (r: Result<
        (),
        Error,
    >)
        requires
            old(self).wf(),
        ensures
            final(self).wf(),
            r is Ok <==> old(self).can_execute(proposal_id) && dispatch_ok,
            r is Err ==> *final(self) == *old(self),
            match r {
                Ok(()) => ({
                    let pre = *old(self);
                    let post = *final(self);
                    &&& post.voters == pre.voters
                    &&& post.threshold == pre.threshold
                    &&& post.total_weight == pre.total_weight
                    &&& post.max_voting_period == pre.max_voting_period
                    &&& post.proposals.len() == pre.proposals.len()
                    &&& forall|j: int|
                        0 <= j < pre.proposals.len() && j != proposal_id - 1 ==> post.proposals@[j]
                            == pre.proposals@[j]
                    &&& post.proposal_of(proposal_id).id == pre.proposal_of(proposal_id).id
                    &&& post.proposal_of(proposal_id).title == pre.proposal_of(proposal_id).title
                    &&& post.proposal_of(proposal_id).description == pre.proposal_of(
                        proposal_id,
                    ).description
                    &&& post.proposal_of(proposal_id).proposer == pre.proposal_of(
                        proposal_id,
                    ).proposer
                    &&& post.proposal_of(proposal_id).actions == pre.proposal_of(
                        proposal_id,
                    ).actions
                    &&& post.proposal_of(proposal_id).deadline == pre.proposal_of(
                        proposal_id,
                    ).deadline
                    &&& post.proposal_of(proposal_id).ballots == pre.proposal_of(
                        proposal_id,
                    ).ballots
                    &&& post.status_of(proposal_id) == Status::Executed
                }),
                Err(e) => if !old(self).has_proposal(proposal_id) {
                    e == Error::NotFound
                } else if old(self).status_of(proposal_id) != Status::Passed {
                    e == Error::WrongStatus
                } else {
                    e == Error::DispatchFailed
                },
            },
    {
        if proposal_id == 0 || proposal_id > self.proposals.len() as u64 {
            return Err(Error::NotFound);
        }
        let pidx: usize = (proposal_id - 1) as usize;
        match self.proposals[pidx].status {
            Status::Passed => {},
            _ => {
                return Err(Error::WrongStatus);
            },
        }
        if !dispatch_ok {
            return Err(Error::DispatchFailed);
        }
        self.proposals[pidx].status = Status::Executed;
        Ok(())
    }

    /// Closes an open proposal whose window has expired without passing,
    /// marking the dead end `Closed`: no further votes or execution are
    /// possible. Fails with `NotFound` for an unknown id, `WrongStatus`
    /// unless the proposal is still open, and `NotExpired` before the
    /// deadline.
    pub fn close(&mut self, proposal_id: u64, now: Instant) -> (r: Result<(), Error>)
        requires
            old(self).wf(),
        ensures
            final(self).wf(),
            r is Ok <==> old(self).can_close(proposal_id, now),
            r is Err ==> *final(self) == *old(self),
            match r {
                Ok(()) => ({
                    let pre = *old(self);
                    let post = *final(self);
                    &&& post.voters == pre.voters
                    &&& post.threshold == pre.threshold
                    &&& post.total_weight == pre.total_weight
                    &&& post.max_voting_period == pre.max_voting_period
                    &&& post.proposals.len() == pre.proposals.len()
                    &&& forall|j: int|
                        0 <= j < pre.proposals.len() && j != proposal_id - 1 ==> post.proposals@[j]
                            == pre.proposals@[j]
                    &&& post.proposal_of(proposal_id).id == pre.proposal_of(proposal_id).id
                    &&& post.proposal_of(proposal_id).title == pre.proposal_of(proposal_id).title
                    &&& post.proposal_of(proposal_id).description == pre.proposal_of(
                        proposal_id,
                    ).description
                    &&& post.proposal_of(proposal_id).proposer == pre.proposal_of(
                        proposal_id,
                    ).proposer
                    &&& post.proposal_of(proposal_id).actions == pre.proposal_of(
                        proposal_id,
                    ).actions
                    &&& post.proposal_of(proposal_id).deadline == pre.proposal_of(
                        proposal_id,
                    ).deadline
                    &&& post.proposal_of(proposal_id).ballots == pre.proposal_of(
                        proposal_id,
                    ).ballots
                    &&& post.status_of(proposal_id) == Status::Closed
                }),
                Err(e) => if !old(self).has_proposal(proposal_id) {
                    e == Error::NotFound
                } else if old(self).status_of(proposal_id) != Status::Open {
                    e == Error::WrongStatus
                } else {
                    e == Error::NotExpired
                },
            },
    {
        if proposal_id == 0 || proposal_id > self.proposals.len() as u64 {
            return Err(Error::NotFound);
        }
        let pidx: usize = (proposal_id - 1) as usize;
        match self.proposals[pidx].status {
            Status::Open => {},
            _ => {
                return Err(Error::WrongStatus);
            },
        }
        if !self.proposals[pidx].deadline.is_expired(now) {
            return Err(Error::NotExpired);
        }
        self.proposals[pidx].status = Status::Closed;
        Ok(())
    }

    /// The stored record of a proposal, by id.
    pub fn get(&self, proposal_id: u64) -> (r: Result<&Proposal, Error>)
        ensures
            r is Ok <==> self.has_proposal(proposal_id),
            match r {
                Ok(p) => *p == self.proposal_of(proposal_id),
                Err(e) => e == Error::NotFound,
            },
    {
        if proposal_id == 0 || proposal_id > self.proposals.len() as u64 {
            return Err(Error::NotFound);
        }
        let pidx: usize = (proposal_id - 1) as usize;
        Ok(&self.proposals[pidx])
    }

    /// A proposal's status as of `now`, re-evaluating expiry lazily without
    /// mutating the stored record: an open proposal whose window has closed
    /// reads as `Passed` or `Rejected` by the final verdict on its tally.
    pub open spec fn spec_status_as_of(self, id: u64, now: Instant) -> Status {
        let p = self.proposal_of(id);
        let t = self.spec_tally(id);
        if p.status != Status::Open {
            p.status
        } else if p.deadline.spec_expired(now) {
            verdict_status(self.threshold.final_verdict_of(t, self.total_weight))
        } else {
            verdict_status(self.threshold.verdict_of(t, self.total_weight))
        }
    }

    /// Computes a proposal's status as of `now` (see `spec_status_as_of`).
    pub fn status_as_of(&self, proposal_id: u64, now: Instant) -> (r: Result<Status, Error>)
        requires
            self.wf(),
        ensures
            r is Ok <==> self.has_proposal(proposal_id),
            match r {
                Ok(st) => st == self.spec_status_as_of(proposal_id, now),
                Err(e) => e == Error::NotFound,
            },
    {
        if proposal_id == 0 || proposal_id > self.proposals.len() as u64 {
            return Err(Error::NotFound);
        }
        let pidx: usize = (proposal_id - 1) as usize;
        match self.proposals[pidx].status {
            Status::Open => {},
            st => {
                return Ok(st);
            },
        }
        let t = Self::compute_tally(&self.voters, &self.proposals[pidx].ballots);
        let v = if self.proposals[pidx].deadline.is_expired(now) {
            self.threshold.evaluate_final(&t, self.total_weight)
        } else {
            self.threshold.evaluate(&t, self.total_weight)
        };
        match v {
            Verdict::Pending => Ok(Status::Open),
            Verdict::Passed => Ok(Status::Passed),
            Verdict::Rejected => Ok(Status::Rejected),
        }
    }

    /// A proposal's current weighted tally.
    pub fn tally(&self, proposal_id: u64) -> (r: Result<Tally, Error>)
        requires
            self.wf(),
        ensures
            r is Ok <==> self.has_proposal(proposal_id),
            match r {
                Ok(t) => t == self.spec_tally(proposal_id),
                Err(e) => e == Error::NotFound,
            },
    {
        if proposal_id == 0 || proposal_id > self.proposals.len() as u64 {
            return Err(Error::NotFound);
        }
        let pidx: usize = (proposal_id - 1) as usize;
        Ok(Self::compute_tally(&self.voters, &self.proposals[pidx].ballots))
    }

    /// Whether proposal `id` passes a status filter, judged as of `now`.
    pub open spec fn spec_matches_filter(self, id: u64, filter: Option<Status>, now: Instant) -> bool {
        match filter {
            None => true,
            Some(st) => self.spec_status_as_of(id, now) == st,
        }
    }

    /// The listing of the first `n` stored proposals: the ids above
    /// `start_after` whose status matches the filter, ascending.
    pub open spec fn spec_list_upto(
        self,
        start_after: u64,
        filter: Option<Status>,
        now: Instant,
        n: int,
    ) -> Seq<u64>
        decreases n,
    {
        if n <= 0 {
            Seq::empty()
        } else {
            let prefix = self.spec_list_upto(start_after, filter, now, n - 1);
            if n as u64 > start_after && self.spec_matches_filter(n as u64, filter, now) {
                prefix.push(n as u64)
            } else {
                prefix
            }
        }
    }

    /// The full listing over the whole store.
    pub open spec fn spec_list(self, start_after: u64, filter: Option<Status>, now: Instant) -> Seq<
        u64,
    > {
        self.spec_list_upto(start_after, filter, now, self.proposals.len() as int)
    }

    /// Lists proposal ids ascending, starting strictly after `start_after`,
    /// keeping only those whose status as of `now` matches the filter (if
    /// any), and returning at most `limit` of them — the pagination page.
    pub fn list(&self, start_after: u64, limit: usize, filter: Option<Status>, now: Instant) -> (r:
        Vec<u64>)
        requires
            self.wf(),
        ensures
            ({
                let full = self.spec_list(start_after, filter, now);
                r@ == if (limit as int) < full.len() {
                    full.take(limit as int)
                } else {
                    full
                }
            }),
    {
        let n = self.proposals.len();
        let mut out: Vec<u64> = Vec::new();
        let mut i: usize = 0;
        while i < n
            invariant
                0 <= i <= n,
                out@.len() <= limit,
                ({
                    let part = self.spec_list_upto(start_after, filter, now, i as int);
                    out@ == if (limit as int) < part.len() {
                        part.take(limit as int)
                    } else {
                        part
                    }
                }),
            decreases n - i,
        {
            let ghost part = self.spec_list_upto(start_after, filter, now, i as int);
            let ghost part1 = self.spec_list_upto(start_after, filter, now, i as int + 1);
            let id: u64 = (i as u64) + 1;
            let keep: bool = if id > start_after {
                match filter {
                    None => true,
                    Some(st) => {
                        match self.status_as_of(id, now) {
                            Ok(s) => s == st,
                            Err(_) => false,
                        }
                    },
                }
            } else {
                false
            };
            if keep && out.len() < limit {
                out.push(id);
            }
            proof {
                if keep {
                    assert(part1 == part.push(id));
                    if out@.len() <= limit && part.len() < limit {
                        // pushed on both sides
                        assert(out@ == part.push(id));
                    } else if part.len() >= limit {
                        // the page is already full; the spec listing grows past it
                        assert(part1.take(limit as int) =~= if (limit as int) < part.len() {
                            part.take(limit as int)
                        } else {
                            part
                        });
                    }
                } else {
                    assert(part1 == part);
                }
            }
            i += 1;
        }
        out
    }

    /// The immutable registry: every voter and their weight.
    pub fn list_voters(&self) -> (r: &Vec<Voter>)
        ensures
            r == &self.voters,
    {
        &self.voters
    }

    /// A principal's registered weight, if they are a member.
    pub fn voter_weight(&self, addr: &String) -> (r: Option<u64>)
        requires
            self.wf(),
        ensures
            match r {
                Some(w) => self.is_member(addr@) && w == self.member_weight(addr@),
                None => !self.is_member(addr@),
            },
    {
        match self.find_voter(addr) {
            None => None,
            Some(i) => {
                proof {
                    self.lemma_member_index_agrees(i as int, addr@);
                }
                Some(self.voters[i].weight)
            },
        }
    }

    /// The configured pass rule.
    pub fn threshold_config(&self) -> (r: Threshold)
        ensures
            r == self.threshold,
    {
        self.threshold
    }

    /// The configured default (and maximum) voting window.
    pub fn voting_period(&self) -> (r: Duration)
        ensures
            r == self.max_voting_period,
    {
        self.max_voting_period
    }

    /// The registry's total weight, the denominator of all threshold math.
    pub fn registry_total_weight(&self) -> (r: u64)
        ensures
            r == self.total_weight,
    {
        self.total_weight
    }
}

} // verus!
