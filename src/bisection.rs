//! Sign-change bisection on trial energies, shared by the shooting method
//! (whose signal is the sign of the last wavefunction sample) and the
//! matching method (whose signal is the sign of the left slope minus the
//! right slope at the matching point).
//!
//! The energy step starts at some size and each reversal halves it, so its
//! magnitude after `h` reversals is the initial one over `2^h`. The caller
//! fixes, once, how many halvings bring it down to the convergence cutoff;
//! the controller stops when that many have happened and the trial at hand
//! was accepted, or when the cap on the number of trials is reached. A trial
//! that was rejected never ends the search as converged: the energy moves on
//! by the same step.

use vstd::prelude::*;

verus! {

/// Sign of the bisection signal observed at one trial energy.
#[derive(Clone, Copy, Debug, PartialEq, Eq, Structural)]
pub enum Sign {
    Negative,
    Zero,
    Positive,
}

/// Why the search stopped.
#[derive(Clone, Copy, Debug, PartialEq, Eq, Structural)]
pub enum Outcome {
    /// The energy step has been halved down to the cutoff.
    Converged,
    /// The cap on trials was reached first.
    Exhausted,
}

/// What to do with the energy after a trial.
#[derive(Clone, Copy, Debug, PartialEq, Eq, Structural)]
pub enum Move {
    /// Add the current energy step to the energy.
    Advance,
    /// Negate and halve the energy step, then add it to the energy.
    ReverseAndHalve,
    /// Keep the energy: the search is over.
    Stop(Outcome),
}

/// State of the bisection over trial energies.
#[derive(Clone, Copy, Debug, PartialEq, Eq, Structural)]
pub struct Bisection {
    /// Halvings of the energy step so far.
    pub halvings: u32,
    /// Halvings after which the step is within the cutoff.
    pub halvings_needed: u32,
    /// Whether the signal at the previous trial was non-negative; `None`
    /// before the first trial.
    pub last_non_negative: Option<bool>,
    /// Trials that have moved the energy so far.
    pub trials: u64,
    /// Most trials allowed to move the energy.
    pub max_trials: u64,
}

/// The signal has crossed to the other side of zero since the previous trial:
/// from non-negative to strictly negative, or from negative to strictly positive.
pub open spec fn crossed(last_non_negative: Option<bool>, sign: Sign) -> bool {
    match last_non_negative {
        Some(true) => sign == Sign::Negative,
        Some(false) => sign == Sign::Positive,
        None => false,
    }
}

impl Bisection {
    pub open spec fn wf(self) -> bool {
        &&& self.halvings <= self.halvings_needed
        &&& self.trials <= self.max_trials
    }

    /// The energy step is within the cutoff.
    pub open spec fn converged(self) -> bool {
        self.halvings >= self.halvings_needed
    }

    /// The move made after observing `sign` at a trial that was `accepted`
    /// (a trial is rejected when its wavefunction could not be trusted, and
    /// then moves the energy by the same step, as long as trials are left).
    pub open spec fn move_for(self, sign: Sign, accepted: bool) -> Move {
        if accepted && self.converged() {
            Move::Stop(Outcome::Converged)
        } else if self.trials >= self.max_trials {
            Move::Stop(Outcome::Exhausted)
        } else if accepted && crossed(self.last_non_negative, sign) {
            Move::ReverseAndHalve
        } else {
            Move::Advance
        }
    }

    /// The state after observing `sign` at a trial that was `accepted`.
    pub open spec fn after(self, sign: Sign, accepted: bool) -> Bisection {
        match self.move_for(sign, accepted) {
            Move::Stop(_) => self,
            m => Bisection {
                halvings: if m == Move::ReverseAndHalve {
                    (self.halvings + 1) as u32
                } else {
                    self.halvings
                },
                last_non_negative: Some(sign != Sign::Negative),
                trials: (self.trials + 1) as u64,
                ..self
            },
        }
    }

    /// A search that stops once the step has been halved `halvings_needed`
    /// times, or after `max_trials` trials have moved the energy.
    pub fn new(halvings_needed: u32, max_trials: u64) -> (r: Bisection)
        ensures
            r.wf(),
            r.halvings == 0,
            r.halvings_needed == halvings_needed,
            r.last_non_negative.is_none(),
            r.trials == 0,
            r.max_trials == max_trials,
    {
        Bisection { halvings: 0, halvings_needed, last_non_negative: None, trials: 0, max_trials }
    }

    /// Records the signal of the trial just computed and says how the energy
    /// moves next.
    pub fn observe(&mut self, sign: Sign, accepted: bool) -> (m: Move)
        requires
            old(self).wf(),
        ensures
            m == old(self).move_for(sign, accepted),
            *final(self) == old(self).after(sign, accepted),
            final(self).wf(),
    {
        if accepted && self.halvings >= self.halvings_needed {
            return Move::Stop(Outcome::Converged);
        }
        if self.trials >= self.max_trials {
            return Move::Stop(Outcome::Exhausted);
        }
        let reverse = accepted && match self.last_non_negative {
            Some(true) => sign == Sign::Negative,
            Some(false) => sign == Sign::Positive,
            None => false,
        };
        if reverse {
            self.halvings = self.halvings + 1;
        }
        self.last_non_negative = Some(sign != Sign::Negative);
        self.trials = self.trials + 1;
        if reverse {
            Move::ReverseAndHalve
        } else {
            Move::Advance
        }
    }
}

/// The energy step never grows: each trial halves it at most once, so the
/// halving count never decreases and rises by at most one.
pub proof fn lemma_step_never_grows(s: Bisection, sign: Sign, accepted: bool)
    requires
        s.wf(),
    ensures
        s.halvings <= s.after(sign, accepted).halvings <= s.halvings + 1,
        s.after(sign, accepted).wf(),
{
}

/// A rejected trial never narrows or ends the search as a solution: the step
/// keeps its size and direction, whatever its signal, and the energy moves on
/// by it unless the cap on trials is reached.
pub proof fn lemma_rejected_trial_keeps_step(s: Bisection, sign: Sign)
    requires
        s.wf(),
    ensures
        s.move_for(sign, false) != Move::ReverseAndHalve,
        s.move_for(sign, false) != Move::Stop(Outcome::Converged),
        s.trials < s.max_trials ==> s.move_for(sign, false) == Move::Advance,
        s.after(sign, false).halvings == s.halvings,
{
}

/// The search ends: a stop leaves the state as it is, and each trial that
/// moves the energy uses up one of the `max_trials` allowed, so at most
/// `max_trials` trials move it; once they are used up, every trial stops.
pub proof fn lemma_search_ends(s: Bisection, sign: Sign, accepted: bool)
    requires
        s.wf(),
    ensures
        s.move_for(sign, accepted) is Stop ==> s.after(sign, accepted) == s,
        !(s.move_for(sign, accepted) is Stop) ==> s.after(sign, accepted).trials == s.trials + 1
            && s.trials < s.max_trials,
        s.trials == s.max_trials ==> s.move_for(sign, accepted) is Stop,
{
}

/// Converging is stopping with the step within the cutoff on a trusted trial:
/// the search stops as converged exactly when the step has been halved the
/// needed number of times and the trial at hand was accepted.
pub proof fn lemma_converged_iff_halved(s: Bisection, sign: Sign, accepted: bool)
    requires
        s.wf(),
    ensures
        (s.move_for(sign, accepted) == Move::Stop(Outcome::Converged)) == (s.halvings
            == s.halvings_needed && accepted),
{
}

} // verus!
