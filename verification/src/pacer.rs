//! Pacing the loop by elapsed time.

use vstd::arithmetic::div_mod::{lemma_fundamental_div_mod, lemma_fundamental_div_mod_converse};
use vstd::prelude::*;

verus! {

/// The pacer as a mathematical value.
pub struct PacerState {
    /// Nanoseconds that one step takes.
    pub period: nat,
    /// Nanoseconds that have passed and are not yet spent on a step.
    pub pending: nat,
}

impl PacerState {
    /// A step takes time, and less than a step's time is pending.
    pub open spec fn valid(self) -> bool {
        self.pending < self.period
    }

    /// The steps that are due once `nanos` more nanoseconds have passed.
    pub open spec fn due(self, nanos: nat) -> nat {
        (self.pending + nanos) / self.period
    }

    /// This pacer after `nanos` more nanoseconds have passed and the steps
    /// that were due have been taken.
    pub open spec fn elapsed(self, nanos: nat) -> PacerState {
        PacerState { pending: (self.pending + nanos) % self.period, ..self }
    }
}

/// Turns elapsed time into the number of steps of a fixed period that are
/// due, carrying what is left of a period over to the next call. Driven by
/// a clock, it keeps a loop at its rate whatever one pass of the loop
/// takes.
#[derive(Clone, Debug)]
pub struct Pacer {
    period: u64,
    pending: u64,
}

impl View for Pacer {
    type V = PacerState;

    closed spec fn view(&self) -> PacerState {
        PacerState { period: self.period as nat, pending: self.pending as nat }
    }
}

impl Pacer {
    /// The state is valid.
    pub open spec fn wf(&self) -> bool {
        self@.valid()
    }

    /// A pacer for steps of `period` nanoseconds, with no time pending.
    pub fn new(period: u64) -> (pacer: Pacer)
        requires
            period >= 1,
        ensures
            pacer.wf(),
            pacer@ == (PacerState { period: period as nat, pending: 0 }),
    {
        Pacer { period, pending: 0 }
    }

    /// Nanoseconds that one step takes.
    pub fn period(&self) -> (nanos: u64)
        ensures
            nanos == self@.period,
    {
        self.period
    }

    /// Nanoseconds that have passed and are not yet spent on a step.
    pub fn pending(&self) -> (nanos: u64)
        ensures
            nanos == self@.pending,
    {
        self.pending
    }

    /// Records that `nanos` nanoseconds have passed and returns the number
    /// of steps that are due.
    pub fn elapse(&mut self, nanos: u64) -> (steps: u64)
        requires
            old(self).wf(),
        ensures
            final(self).wf(),
            steps == old(self)@.due(nanos as nat),
            final(self)@ == old(self)@.elapsed(nanos as nat),
    {
        let whole: u64 = nanos / self.period;
        let part: u64 = nanos % self.period;
        let ghost period = self.period as int;
        let ghost pending = self.pending as int;
        proof {
            lemma_fundamental_div_mod(nanos as int, period);
        }
        if self.pending >= self.period - part {
            proof {
                assert(pending + nanos == (whole + 1) * period + (pending + part - period))
                    by (nonlinear_arith)
                    requires
                        nanos == period * whole + part,
                ;
                lemma_fundamental_div_mod_converse(
                    pending + nanos,
                    period,
                    whole + 1,
                    pending + part - period,
                );
                assert(whole < u64::MAX) by (nonlinear_arith)
                    requires
                        nanos == period * whole + part,
                        period >= 2,
                        part >= 0,
                        whole >= 0,
                        nanos <= u64::MAX,
                ;
            }
            self.pending = self.pending - (self.period - part);
            whole + 1
        } else {
            proof {
                assert(pending + nanos == whole * period + (pending + part)) by (nonlinear_arith)
                    requires
                        nanos == period * whole + part,
                ;
                lemma_fundamental_div_mod_converse(
                    pending + nanos,
                    period,
                    whole as int,
                    pending + part,
                );
            }
            self.pending = self.pending + part;
            whole
        }
    }
}

/// The steps that are due do not depend on how the time is cut up: letting
/// `first` and then `second` nanoseconds pass yields as many steps in all,
/// and leaves as much pending, as letting their sum pass at once.
pub proof fn elapsing_adds_up(p: PacerState, first: nat, second: nat)
    requires
        p.valid(),
    ensures
        p.due(first) + p.elapsed(first).due(second) == p.due(first + second),
        p.elapsed(first).elapsed(second) == p.elapsed(first + second),
{
    let period: int = p.period as int;
    let total: int = (p.pending + first) as int;
    let q1: int = total / period;
    let r1: int = total % period;
    let q2: int = (r1 + second) / period;
    let r2: int = (r1 + second) % period;
    lemma_fundamental_div_mod(total, period);
    lemma_fundamental_div_mod(r1 + second, period);
    assert(total + second == (q1 + q2) * period + r2) by (nonlinear_arith)
        requires
            total == period * q1 + r1,
            r1 + second == period * q2 + r2,
    ;
    lemma_fundamental_div_mod_converse(total + second, period, q1 + q2, r2);
}

} // verus!
