//! The threshold policy: a pure function from a weighted tally to a verdict.
//!
//! Three rules are supported: an absolute weight of Yes votes, a percentage
//! of the total weight, and a quorum-gated percentage of the participating
//! weight. Percentage comparisons are integer cross-multiplications — no
//! division and no floating point — so they are exact.
//!
//! A Veto ballot carries no configured veto threshold here: it counts like a
//! No for tally purposes (it adds to participation and withholds its weight
//! from Yes). This is a deliberate, documented configuration choice.

use vstd::prelude::*;

verus! {

/// The weighted tally of one proposal: the summed registry weights of the
/// ballots cast for each choice.
#[derive(Clone, Copy, PartialEq, Eq, Structural, Debug)]
pub struct Tally {
    pub yes: u64,
    pub no: u64,
    pub abstain: u64,
    pub veto: u64,
}

impl Tally {
    /// The weight that has participated: every cast ballot counts, whatever
    /// its choice.
    pub open spec fn participating(self) -> int {
        self.yes + self.no + self.abstain + self.veto
    }

}

/// What a tally means under the configured rule, before the voting window
/// closes.
#[derive(Clone, Copy, PartialEq, Eq, Structural, Debug)]
pub enum Verdict {
    /// The rule is not yet satisfied, but further ballots could still change
    /// the outcome.
    Pending,
    /// The rule is satisfied by the current tally.
    Passed,
    /// No completion of the tally can ever satisfy the rule.
    Rejected,
}

/// The configured pass rule, immutable after construction.
#[derive(Clone, Copy, PartialEq, Eq, Structural, Debug)]
pub enum Threshold {
    /// Passes when the Yes weight reaches `weight`.
    AbsoluteCount { weight: u64 },
    /// Passes when the Yes weight reaches `percentage` percent of the total
    /// registry weight.
    AbsolutePercentage { percentage: u64 },
    /// Passes only once `quorum` percent of the total weight has
    /// participated and the Yes weight reaches `threshold` percent of the
    /// participating weight. While the quorum is unmet the outcome stays
    /// pending — never rejected — until the window expires.
    ThresholdQuorum { threshold: u64, quorum: u64 },
}

impl Threshold {
    /// Whether the rule's parameters are coherent against a registry of the
    /// given total weight: an absolute count must be reachable, and
    /// percentages must lie in 1..=100.
    pub open spec fn spec_valid(self, total_weight: u64) -> bool {
        match self {
            Threshold::AbsoluteCount { weight } => 1 <= weight && weight <= total_weight,
            Threshold::AbsolutePercentage { percentage } => 1 <= percentage && percentage <= 100,
            Threshold::ThresholdQuorum { threshold, quorum } => {
                &&& 1 <= threshold && threshold <= 100
                &&& 1 <= quorum && quorum <= 100
            },
        }
    }

    /// Whether the current tally satisfies the rule, exactly as configured.
    pub open spec fn passes(self, tally: Tally, total_weight: u64) -> bool {
        match self {
            Threshold::AbsoluteCount { weight } => tally.yes >= weight,
            Threshold::AbsolutePercentage { percentage } => tally.yes * 100 >= percentage
                * total_weight,
            Threshold::ThresholdQuorum { threshold, quorum } => {
                &&& tally.participating() * 100 >= quorum * total_weight
                &&& tally.yes * 100 >= threshold * tally.participating()
            },
        }
    }

    /// Whether no completion of the tally can satisfy the rule any more:
    /// even if every voter yet to cast a ballot voted Yes, the rule would
    /// fail. A quorum-gated rule is never defeated early: while its quorum is
    /// unmet the outcome stays pending until expiry.
    pub open spec fn defeated(self, tally: Tally, total_weight: u64) -> bool {
        let max_yes = total_weight - tally.no - tally.abstain - tally.veto;
        match self {
            Threshold::AbsoluteCount { weight } => max_yes < weight,
            Threshold::AbsolutePercentage { percentage } => max_yes * 100 < percentage
                * total_weight,
            Threshold::ThresholdQuorum { .. } => false,
        }
    }

    /// The verdict on a tally while the voting window is still open.
    pub open spec fn verdict_of(self, tally: Tally, total_weight: u64) -> Verdict {
        if self.passes(tally, total_weight) {
            Verdict::Passed
        } else if self.defeated(tally, total_weight) {
            Verdict::Rejected
        } else {
            Verdict::Pending
        }
    }

    /// The verdict on a tally once the voting window has closed: no further
    /// ballots can arrive, so anything short of passing is rejected.
    pub open spec fn final_verdict_of(self, tally: Tally, total_weight: u64) -> Verdict {
        if self.passes(tally, total_weight) {
            Verdict::Passed
        } else {
            Verdict::Rejected
        }
    }

    /// Validates the rule's parameters against the registry's total weight.
    pub fn validate(&self, total_weight: u64) -> (r: Result<(), crate::error::Error>)
        ensures
            r is Ok <==> self.spec_valid(total_weight),
            r is Err ==> r == Err::<(), crate::error::Error>(
                crate::error::Error::InvalidConfiguration,
            ),
    {
        let ok: bool = match *self {
            Threshold::AbsoluteCount { weight } => 1 <= weight && weight <= total_weight,
            Threshold::AbsolutePercentage { percentage } => 1 <= percentage && percentage <= 100,
            Threshold::ThresholdQuorum { threshold, quorum } => 1 <= threshold && threshold <= 100
                && 1 <= quorum && quorum <= 100,
        };
        if ok {
            Ok(())
        } else {
            Err(crate::error::Error::InvalidConfiguration)
        }
    }

    /// Decides whether the current tally satisfies the rule.
    pub fn check_passes(&self, tally: &Tally, total_weight: u64) -> (r: bool)
        requires
            self.spec_valid(total_weight),
            tally.participating() <= total_weight,
        ensures
            r == self.passes(*tally, total_weight),
    {
        let yes: u128 = tally.yes as u128;
        let total: u128 = total_weight as u128;
        match *self {
            Threshold::AbsoluteCount { weight } => tally.yes >= weight,
            Threshold::AbsolutePercentage { percentage } => {
                let pct: u128 = percentage as u128;
                proof {
                    assert(pct * total <= 100 * 0xffff_ffff_ffff_ffffu128) by (nonlinear_arith)
                        requires
                            pct <= 100,
                            total <= 0xffff_ffff_ffff_ffffu128,
                    ;
                }
                yes * 100 >= pct * total
            },
            Threshold::ThresholdQuorum { threshold, quorum } => {
                let part: u128 = tally.yes as u128 + tally.no as u128 + tally.abstain as u128
                    + tally.veto as u128;
                let thr: u128 = threshold as u128;
                let quo: u128 = quorum as u128;
                proof {
                    assert(quo * total <= 100 * 0xffff_ffff_ffff_ffffu128) by (nonlinear_arith)
                        requires
                            quo <= 100,
                            total <= 0xffff_ffff_ffff_ffffu128,
                    ;
                    assert(thr * part <= 100 * 0x3_ffff_ffff_ffff_fffcu128) by (nonlinear_arith)
                        requires
                            thr <= 100,
                            part <= 0x3_ffff_ffff_ffff_fffcu128,
                    ;
                }
                part * 100 >= quo * total && yes * 100 >= thr * part
            },
        }
    }

    /// Evaluates the tally while the voting window is still open.
    pub fn evaluate(&self, tally: &Tally, total_weight: u64) -> (v: Verdict)
        requires
            self.spec_valid(total_weight),
            tally.participating() <= total_weight,
        ensures
            v == self.verdict_of(*tally, total_weight),
            v == Verdict::Passed <==> self.passes(*tally, total_weight),
    {
        if self.check_passes(tally, total_weight) {
            Verdict::Passed
        } else {
            let total: u128 = total_weight as u128;
            let max_yes: u128 = total - (tally.no as u128 + tally.abstain as u128
                + tally.veto as u128);
            let rejected: bool = match *self {
                Threshold::AbsoluteCount { weight } => max_yes < weight as u128,
                Threshold::AbsolutePercentage { percentage } => {
                    let pct: u128 = percentage as u128;
                    proof {
                        assert(pct * total <= 100 * 0xffff_ffff_ffff_ffffu128) by (nonlinear_arith)
                            requires
                                pct <= 100,
                                total <= 0xffff_ffff_ffff_ffffu128,
                        ;
                    }
                    max_yes * 100 < pct * total
                },
                Threshold::ThresholdQuorum { .. } => false,
            };
            if rejected {
                Verdict::Rejected
            } else {
                Verdict::Pending
            }
        }
    }

    /// Evaluates the tally once the voting window has closed: a still-pending
    /// outcome becomes rejected, since no further ballots can arrive.
    pub fn evaluate_final(&self, tally: &Tally, total_weight: u64) -> (v: Verdict)
        requires
            self.spec_valid(total_weight),
            tally.participating() <= total_weight,
        ensures
            v == self.final_verdict_of(*tally, total_weight),
            v == Verdict::Passed <==> self.passes(*tally, total_weight),
    {
        if self.check_passes(tally, total_weight) {
            Verdict::Passed
        } else {
            Verdict::Rejected
        }
    }
}

} // verus!
