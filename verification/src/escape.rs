//! Control of the bounded escape-time iteration.
//!
//! The orbit of a point is computed by the caller. Before each step the
//! caller tests whether the orbit has left the bound and reports the answer
//! here; this module counts the steps, stops the run at the cap, and says
//! how the finished run is to be read.

use vstd::prelude::*;

verus! {

/// The largest number of steps that one run may take.
pub const ITERATION_CAP: u32 = 256;

/// The square of the distance from the origin at which an orbit has left
/// the bound. Divergence is certain from 4 on; the wider bound makes the
/// smoothed escape value run more evenly.
pub const ESCAPE_BOUND_SQUARED: u32 = 32;

/// What follows a test of the bound.
#[derive(Clone, Copy, Debug, PartialEq, Eq)]
pub enum Verdict {
    /// The orbit is inside the bound and the cap is not reached: take
    /// another step.
    Iterate,
    /// The orbit left the bound after `steps` steps, fewer than the cap.
    Escaped { steps: u32 },
    /// The cap is reached; the point counts as bounded.
    Capped,
}

/// The verdict on a run that has taken `steps` steps and whose orbit is
/// outside the bound exactly if `escaped`. The cap is looked at first: a
/// run at the cap is capped whatever the orbit does.
pub open spec fn verdict(steps: nat, escaped: bool) -> Verdict {
    if steps >= ITERATION_CAP {
        Verdict::Capped
    } else if escaped {
        Verdict::Escaped { steps: steps as u32 }
    } else {
        Verdict::Iterate
    }
}

/// One run of the iteration: the count of the steps taken so far.
pub struct Run {
    steps: u32,
}

impl View for Run {
    type V = nat;

    closed spec fn view(&self) -> nat {
        self.steps as nat
    }
}

impl Run {
    #[verifier::type_invariant]
    spec fn within_cap(self) -> bool {
        self.steps <= ITERATION_CAP
    }

    /// A run that has taken no step yet.
    pub fn start() -> (run: Self)
        ensures
            run@ == 0,
    {
        Run { steps: 0 }
    }

    /// The number of steps taken so far; never more than the cap.
    pub fn steps(&self) -> (steps: u32)
        ensures
            steps == self@,
            steps <= ITERATION_CAP,
    {
        proof {
            use_type_invariant(self);
        }
        self.steps
    }

    /// Takes the result of a test of the bound and gives the verdict. On
    /// `Iterate` the step is counted; on the other verdicts the run is over
    /// and the count stays.
    pub fn advance(&mut self, escaped: bool) -> (next: Verdict)
        ensures
            next == verdict(old(self)@, escaped),
            final(self)@ == if next is Iterate { old(self)@ + 1 } else { old(self)@ },
    {
        proof {
            use_type_invariant(&*self);
        }
        if self.steps >= ITERATION_CAP {
            Verdict::Capped
        } else if escaped {
            Verdict::Escaped { steps: self.steps }
        } else {
            self.steps = self.steps + 1;
            Verdict::Iterate
        }
    }
}

/// The number of steps of a whole run that stands at `from` steps, when the
/// test of the bound before step `n` gives `escaped(n)`.
pub open spec fn run_length(escaped: spec_fn(nat) -> bool, from: nat) -> nat
    decreases ITERATION_CAP - from,
{
    if verdict(from, escaped(from)) is Iterate {
        run_length(escaped, from + 1)
    } else {
        from
    }
}

/// A run is bounded and stops at the first escape: it never takes more
/// steps than the cap, the orbit is inside the bound before every step it
/// takes, and where it stops short of the cap the orbit has left the bound.
pub proof fn lemma_run_stops_at_first_escape(escaped: spec_fn(nat) -> bool, from: nat)
    requires
        from <= ITERATION_CAP,
    ensures
        from <= run_length(escaped, from) <= ITERATION_CAP,
        forall|n: nat| from <= n < run_length(escaped, from) ==> !#[trigger] escaped(n),
        run_length(escaped, from) < ITERATION_CAP ==> escaped(run_length(escaped, from)),
        verdict(run_length(escaped, from), escaped(run_length(escaped, from))) == if run_length(
            escaped,
            from,
        ) < ITERATION_CAP {
            Verdict::Escaped { steps: run_length(escaped, from) as u32 }
        } else {
            Verdict::Capped
        },
    decreases ITERATION_CAP - from,
{
    if verdict(from, escaped(from)) is Iterate {
        lemma_run_stops_at_first_escape(escaped, from + 1);
    }
}

} // verus!
