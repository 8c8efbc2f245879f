//! One-shot completion gate: one owner signals "done" exactly once, and any
//! number of observers learn of that signal, including observers that arrive
//! after the signal has already fired.

use vstd::prelude::*;

verus! {

/// The result a gate is opened with: either the authoritative fetch-and-persist
/// succeeded, or it was given up after the retry policy was exhausted.
///
/// A gate that opens with `Failure` still unblocks every waiter: leaving the
/// gate pending forever on a failed fetch would deadlock all duplicate
/// requests for the same course, so this crate opens such a gate with a failure
/// outcome instead.
#[derive(Clone, Copy, PartialEq, Eq, Structural, Debug)]
pub enum Outcome {
    Success,
    Failure,
}

/// The lifecycle of a gate: `Pending` until its single opener fires it,
/// `Opened` (with the recorded outcome) for the rest of the run.
#[derive(Clone, Copy, PartialEq, Eq, Structural, Debug)]
pub enum GateState {
    Pending,
    Opened(Outcome),
}

/// A completion gate shared by everyone interested in one course.
///
/// Exactly one party, the one that called [`Wait::update`], holds the right to
/// open it; any number of parties may observe it through [`Wait::wait`].
/// Once opened, a gate stays open and its outcome never changes.
#[derive(Clone, Copy, PartialEq, Eq, Structural, Debug)]
pub struct Wait {
    state: GateState,
    claimed: bool,
}

/// The exclusive opener capability for a gate, handed out once by
/// [`Wait::update`] and consumed by [`Wait::open`].
///
/// Callers cannot construct one themselves, so a gate can only be opened by
/// the party that claimed it.
pub struct WaitGuard {
    claimed: bool,
}

impl Wait {
    /// The current state of this gate.
    pub closed spec fn spec_state(&self) -> GateState {
        self.state
    }

    /// Whether the opener capability has been handed out.
    pub closed spec fn spec_claimed(&self) -> bool {
        self.claimed
    }

    pub open spec fn is_pending(&self) -> bool {
        self.spec_state() is Pending
    }

    pub open spec fn is_opened_with(&self, o: Outcome) -> bool {
        self.spec_state() == GateState::Opened(o)
    }

    /// A fresh gate: pending, opener not yet claimed.
    pub fn new() -> (w: Wait)
        ensures
            w.is_pending(),
            !w.spec_claimed(),
    {
        Wait { state: GateState::Pending, claimed: false }
    }

    /// Claims the exclusive right to open this gate.
    ///
    /// Only the first interested party may claim it, and only while this gate
    /// is still pending; claiming an already-claimed gate is a programming
    /// error and is ruled out by the precondition.
    pub fn update(&mut self) -> (g: WaitGuard)
        requires
            old(self).is_pending(),
            !old(self).spec_claimed(),
        ensures
            final(self).spec_claimed(),
            final(self).is_pending(),
    {
        self.claimed = true;
        WaitGuard { claimed: true }
    }

    /// Opens this gate, consuming the opener capability.
    ///
    /// The transition pending to opened happens exactly once: the
    /// precondition rules out a second opening, and no method ever takes an
    /// opened gate back to pending.
    pub fn open(&mut self, g: WaitGuard, outcome: Outcome)
        requires
            old(self).is_pending(),
            old(self).spec_claimed(),
        ensures
            final(self).is_opened_with(outcome),
            final(self).spec_claimed(),
    {
        let _ = g;
        self.state = GateState::Opened(outcome);
    }

    /// Observes this gate: the recorded outcome once it is opened, `None`
    /// while it is still pending (a caller then suspends and observes again
    /// after the opener has run).
    pub fn wait(&self) -> (r: Option<Outcome>)
        ensures
            match r {
                Some(o) => self.is_opened_with(o),
                None => self.is_pending(),
            },
    {
        match self.state {
            GateState::Pending => None,
            GateState::Opened(o) => Some(o),
        }
    }
}

} // verus!
