//! Threshold rules, tallies, re-votes, expiry, and the read-side queries.

use cw3_fixed_multisig::engine::{Multisig, Voter};
use cw3_fixed_multisig::error::Error;
use cw3_fixed_multisig::expiration::{Duration, Instant};
use cw3_fixed_multisig::proposal::{Action, Choice, Status};
use cw3_fixed_multisig::threshold::{Tally, Threshold};

fn s(x: &str) -> String {
    x.to_string()
}

fn at(height: u64) -> Instant {
    Instant { height, time: 0 }
}

fn voter(addr: &str, weight: u64) -> Voter {
    Voter { addr: s(addr), weight }
}

fn act() -> Action {
    Action {
        target: s("counter"),
        payload: b"increment".to_vec(),
    }
}

#[test]
fn absolute_percentage_uses_exact_cross_multiplication() {
    // weights 3, 2, 2: total 7; 51 percent needs yes * 100 >= 51 * 7 = 357
    let mut m = Multisig::new(
        vec![voter("a", 3), voter("b", 2), voter("c", 2)],
        Threshold::AbsolutePercentage { percentage: 51 },
        Duration::Height(10),
    )
    .unwrap();
    m.propose(s("a"), s("t"), s("d"), vec![act()], at(0), None)
        .unwrap();
    // 300 < 357: open
    assert_eq!(m.get(1).unwrap().status, Status::Open);
    // 500 >= 357: passed
    assert_eq!(m.vote(1, &s("b"), Choice::Yes, at(1)).unwrap(), Status::Passed);
}

#[test]
fn absolute_percentage_boundary_is_inclusive() {
    // weights 1, 1, 1, 1: total 4; 50 percent: 2 * 100 >= 50 * 4 exactly
    let mut m = Multisig::new(
        vec![voter("a", 1), voter("b", 1), voter("c", 1), voter("d", 1)],
        Threshold::AbsolutePercentage { percentage: 50 },
        Duration::Height(10),
    )
    .unwrap();
    m.propose(s("a"), s("t"), s("d"), vec![act()], at(0), None)
        .unwrap();
    assert_eq!(m.get(1).unwrap().status, Status::Open);
    assert_eq!(m.vote(1, &s("b"), Choice::Yes, at(1)).unwrap(), Status::Passed);
}

#[test]
fn impossible_outcomes_reject_early() {
    // unanimity demanded: a single No defeats the proposal at once
    let mut m = Multisig::new(
        vec![voter("a", 1), voter("b", 1), voter("c", 1)],
        Threshold::AbsoluteCount { weight: 3 },
        Duration::Height(10),
    )
    .unwrap();
    m.propose(s("a"), s("t"), s("d"), vec![act()], at(0), None)
        .unwrap();
    assert_eq!(m.vote(1, &s("b"), Choice::No, at(1)).unwrap(), Status::Rejected);
    // rejected is terminal
    assert_eq!(m.vote(1, &s("c"), Choice::Yes, at(1)), Err(Error::AlreadyResolved));
    assert_eq!(m.begin_execute(1).err(), Some(Error::WrongStatus));
}

#[test]
fn veto_pools_with_no_for_the_tally() {
    let mut m = Multisig::new(
        vec![voter("a", 1), voter("b", 1), voter("c", 1)],
        Threshold::AbsoluteCount { weight: 2 },
        Duration::Height(10),
    )
    .unwrap();
    m.propose(s("a"), s("t"), s("d"), vec![act()], at(0), None)
        .unwrap();
    assert_eq!(m.vote(1, &s("b"), Choice::Veto, at(1)).unwrap(), Status::Open);
    assert_eq!(
        m.tally(1).unwrap(),
        Tally { yes: 1, no: 0, abstain: 0, veto: 1 }
    );
    // the veto weight is withheld from Yes but cannot pass the proposal
    assert_eq!(m.vote(1, &s("c"), Choice::Yes, at(1)).unwrap(), Status::Passed);
}

#[test]
fn quorum_gate_stays_pending_then_rejects_at_expiry() {
    // 5 voters of weight 1; quorum 60 percent = participation of 3
    let mut m = Multisig::new(
        vec![
            voter("a", 1),
            voter("b", 1),
            voter("c", 1),
            voter("d", 1),
            voter("e", 1),
        ],
        Threshold::ThresholdQuorum { threshold: 50, quorum: 60 },
        Duration::Height(5),
    )
    .unwrap();
    m.propose(s("a"), s("t"), s("d"), vec![act()], at(0), None)
        .unwrap();
    // participation 1 of 5: quorum unmet, pending — never rejected early
    assert_eq!(m.get(1).unwrap().status, Status::Open);
    assert_eq!(m.vote(1, &s("b"), Choice::Abstain, at(1)).unwrap(), Status::Open);
    // participation 3: quorum met, but yes 1 of 3 misses the 50 percent bar
    assert_eq!(m.vote(1, &s("c"), Choice::Abstain, at(1)).unwrap(), Status::Open);
    // as of the deadline the pending outcome reads as rejected
    assert_eq!(m.status_as_of(1, at(5)).unwrap(), Status::Rejected);
    assert_eq!(m.status_as_of(1, at(4)).unwrap(), Status::Open);
}

#[test]
fn quorum_gate_passes_on_participating_weight() {
    let mut m = Multisig::new(
        vec![
            voter("a", 1),
            voter("b", 1),
            voter("c", 1),
            voter("d", 1),
            voter("e", 1),
        ],
        Threshold::ThresholdQuorum { threshold: 50, quorum: 60 },
        Duration::Height(5),
    )
    .unwrap();
    m.propose(s("a"), s("t"), s("d"), vec![act()], at(0), None)
        .unwrap();
    m.vote(1, &s("b"), Choice::Abstain, at(1)).unwrap();
    m.vote(1, &s("c"), Choice::Abstain, at(1)).unwrap();
    // participation 4 of 5, yes 2: 2 * 100 >= 50 * 4 — passed
    assert_eq!(m.vote(1, &s("d"), Choice::Yes, at(1)).unwrap(), Status::Passed);
}

#[test]
fn revote_overwrites_the_prior_ballot() {
    let mut m = Multisig::new(
        vec![voter("a", 1), voter("b", 1), voter("c", 1)],
        Threshold::AbsoluteCount { weight: 2 },
        Duration::Height(10),
    )
    .unwrap();
    m.propose(s("a"), s("t"), s("d"), vec![act()], at(0), None)
        .unwrap();
    assert_eq!(m.tally(1).unwrap(), Tally { yes: 1, no: 0, abstain: 0, veto: 0 });

    // the proposer changes their mind: their founding Yes is replaced
    assert_eq!(m.vote(1, &s("a"), Choice::No, at(1)).unwrap(), Status::Open);
    assert_eq!(m.tally(1).unwrap(), Tally { yes: 0, no: 1, abstain: 0, veto: 0 });

    // and back: still exactly one ballot of weight 1 for this voter
    assert_eq!(m.vote(1, &s("a"), Choice::Yes, at(1)).unwrap(), Status::Open);
    assert_eq!(m.tally(1).unwrap(), Tally { yes: 1, no: 0, abstain: 0, veto: 0 });

    // b abstains, then switches to yes: the switch passes the proposal
    assert_eq!(m.vote(1, &s("b"), Choice::Abstain, at(1)).unwrap(), Status::Open);
    assert_eq!(
        m.tally(1).unwrap(),
        Tally { yes: 1, no: 0, abstain: 1, veto: 0 }
    );
    assert_eq!(m.vote(1, &s("b"), Choice::Yes, at(1)).unwrap(), Status::Passed);
    assert_eq!(m.tally(1).unwrap(), Tally { yes: 2, no: 0, abstain: 0, veto: 0 });
}

#[test]
fn expired_open_proposals_close_but_never_execute() {
    let mut m = Multisig::new(
        vec![voter("a", 2), voter("b", 1)],
        Threshold::AbsoluteCount { weight: 3 },
        Duration::Height(3),
    )
    .unwrap();
    m.propose(s("a"), s("t"), s("d"), vec![act()], at(0), None)
        .unwrap();
    // the window closes at height 3; the late Yes that would have passed it
    // is refused and the tally stays as it was
    assert_eq!(m.vote(1, &s("b"), Choice::Yes, at(3)), Err(Error::Expired));
    assert_eq!(m.tally(1).unwrap(), Tally { yes: 2, no: 0, abstain: 0, veto: 0 });
    // never executable, only closable
    assert_eq!(m.begin_execute(1).err(), Some(Error::WrongStatus));
    assert_eq!(m.commit_execute(1, true), Err(Error::WrongStatus));
    assert_eq!(m.status_as_of(1, at(3)).unwrap(), Status::Rejected);
    assert_eq!(m.close(1, at(3)), Ok(()));
    assert_eq!(m.get(1).unwrap().status, Status::Closed);
}

#[test]
fn single_heavyweight_proposer_passes_immediately() {
    let mut m = Multisig::new(
        vec![voter("a", 2), voter("b", 1)],
        Threshold::AbsoluteCount { weight: 2 },
        Duration::Height(3),
    )
    .unwrap();
    let id = m
        .propose(s("a"), s("t"), s("d"), vec![act()], at(0), None)
        .unwrap();
    // the founding ballot alone satisfies the rule
    assert_eq!(m.get(id).unwrap().status, Status::Passed);
    let batch = m.begin_execute(id).unwrap();
    assert_eq!(batch.len(), 1);
    assert_eq!(m.commit_execute(id, true), Ok(()));
}

#[test]
fn time_windows_expire_on_the_clock() {
    let mut m = Multisig::new(
        vec![voter("a", 1), voter("b", 1)],
        Threshold::AbsoluteCount { weight: 2 },
        Duration::Time(100),
    )
    .unwrap();
    let start = Instant { height: 7, time: 1000 };
    m.propose(s("a"), s("t"), s("d"), vec![act()], start, None)
        .unwrap();
    // height movement alone does not expire a time window
    let later_height = Instant { height: 99, time: 1099 };
    assert_eq!(m.vote(1, &s("b"), Choice::Yes, later_height).unwrap(), Status::Passed);

    m.propose(s("a"), s("t2"), s("d2"), vec![act()], start, None)
        .unwrap();
    let past = Instant { height: 8, time: 1100 };
    assert_eq!(m.vote(2, &s("b"), Choice::Yes, past), Err(Error::Expired));
}

#[test]
fn listing_paginates_ascending_and_filters_by_status() {
    let mut m = Multisig::new(
        vec![voter("a", 1), voter("b", 1), voter("c", 1)],
        Threshold::AbsoluteCount { weight: 2 },
        Duration::Height(10),
    )
    .unwrap();
    for i in 0..3 {
        let title = format!("t{}", i);
        m.propose(s("a"), title, s("d"), vec![act()], at(0), None)
            .unwrap();
    }
    // the second proposal passes
    m.vote(2, &s("b"), Choice::Yes, at(1)).unwrap();

    assert_eq!(m.list(0, 10, None, at(1)), vec![1, 2, 3]);
    assert_eq!(m.list(1, 10, None, at(1)), vec![2, 3]);
    assert_eq!(m.list(0, 2, None, at(1)), vec![1, 2]);
    assert_eq!(m.list(0, 0, None, at(1)), Vec::<u64>::new());
    assert_eq!(m.list(0, 10, Some(Status::Open), at(1)), vec![1, 3]);
    assert_eq!(m.list(0, 10, Some(Status::Passed), at(1)), vec![2]);
    // as of the deadline the open ones read as rejected
    assert_eq!(m.list(0, 10, Some(Status::Rejected), at(10)), vec![1, 3]);
}

#[test]
fn registry_queries_report_the_configuration() {
    let m = Multisig::new(
        vec![voter("a", 3), voter("b", 4)],
        Threshold::AbsolutePercentage { percentage: 51 },
        Duration::Height(9),
    )
    .unwrap();
    assert_eq!(m.voter_weight(&s("a")), Some(3));
    assert_eq!(m.voter_weight(&s("b")), Some(4));
    assert_eq!(m.voter_weight(&s("z")), None);
    assert_eq!(m.registry_total_weight(), 7);
    assert_eq!(
        m.threshold_config(),
        Threshold::AbsolutePercentage { percentage: 51 }
    );
    assert_eq!(m.voting_period(), Duration::Height(9));
    let vs = m.list_voters();
    assert_eq!(vs.len(), 2);
    assert_eq!(vs[0].addr, "a");
    assert_eq!(vs[0].weight, 3);
}

#[test]
fn get_returns_the_stored_record() {
    let mut m = Multisig::new(
        vec![voter("a", 1), voter("b", 1)],
        Threshold::AbsoluteCount { weight: 2 },
        Duration::Height(3),
    )
    .unwrap();
    m.propose(
        s("a"),
        s("Mint tokens"),
        s("Need to mint tokens"),
        vec![act()],
        at(0),
        None,
    )
    .unwrap();
    let p = m.get(1).unwrap();
    assert_eq!(p.id, 1);
    assert_eq!(p.title, "Mint tokens");
    assert_eq!(p.description, "Need to mint tokens");
    assert_eq!(p.proposer, "a");
    assert_eq!(p.actions.len(), 1);
    assert_eq!(p.actions[0], act());
    assert_eq!(p.status, Status::Open);
}
