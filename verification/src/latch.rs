//! The latch in front of the engine's one-time startup.
//!
//! One latch exists per process. Whoever is about to use the engine asks the
//! latch first; the latch tells exactly one caller to run the startup, and
//! records how that went for everyone who comes later.

use crate::fault::Fault;
use vstd::prelude::*;

verus! {

/// What the latch has recorded of the engine's startup.
#[derive(Clone, Copy, Debug, PartialEq, Eq, Structural)]
pub enum LatchState {
    /// The startup has not been run.
    Fresh,
    /// The startup was run and succeeded.
    Ready,
    /// The startup was run and failed. The engine cannot be used, and the
    /// startup is not tried again.
    Failed,
}

/// What the latch tells a caller to do.
#[derive(Clone, Copy, Debug, PartialEq, Eq, Structural)]
pub enum Admission {
    /// Run the startup now, and report how it went.
    Startup,
    /// The engine is up: go on.
    Proceed,
    /// The startup failed earlier: the engine must not be used.
    Halt,
}

/// The latch.
#[derive(Clone, Copy, Debug, PartialEq, Eq, Structural)]
pub struct InitLatch {
    pub state: LatchState,
    /// A frame pump has been set up in this process.
    pub pump_claimed: bool,
}

/// What a latch in state `state` tells a caller.
pub open spec fn admission_of(state: LatchState) -> Admission {
    match state {
        LatchState::Fresh => Admission::Startup,
        LatchState::Ready => Admission::Proceed,
        LatchState::Failed => Admission::Halt,
    }
}

/// The state after a startup that was asked for in state `state` went
/// well or not. A state that records a startup is never left.
pub open spec fn settled(state: LatchState, went_well: bool) -> LatchState {
    match state {
        LatchState::Fresh => if went_well {
            LatchState::Ready
        } else {
            LatchState::Failed
        },
        other => other,
    }
}

/// The state after a number of callers passed the latch one after the
/// other. `outcomes[i]` is how the startup would go if caller `i` ran it.
pub open spec fn state_after(state: LatchState, outcomes: Seq<bool>) -> LatchState
    decreases outcomes.len(),
{
    if outcomes.len() == 0 {
        state
    } else {
        settled(state_after(state, outcomes.drop_last()), outcomes.last())
    }
}

/// The number of callers, among those that passed the latch one after the
/// other, that were told to run the startup.
pub open spec fn startups(state: LatchState, outcomes: Seq<bool>) -> nat
    decreases outcomes.len(),
{
    if outcomes.len() == 0 {
        0
    } else {
        let before = state_after(state, outcomes.drop_last());
        startups(state, outcomes.drop_last()) + if admission_of(before) == Admission::Startup {
            1nat
        } else {
            0nat
        }
    }
}

impl InitLatch {
    /// The latch of a process in which nothing has used the engine yet.
    pub fn new() -> (latch: InitLatch)
        ensures
            latch.state == LatchState::Fresh,
            !latch.pump_claimed,
    {
        InitLatch { state: LatchState::Fresh, pump_claimed: false }
    }

    /// Tells a caller that is about to use the engine what to do first.
    pub fn enter(&self) -> (admission: Admission)
        ensures
            admission == admission_of(self.state),
    {
        match self.state {
            LatchState::Fresh => Admission::Startup,
            LatchState::Ready => Admission::Proceed,
            LatchState::Failed => Admission::Halt,
        }
    }

    /// Records how the startup went. Only the first report counts.
    pub fn settle(&mut self, went_well: bool)
        ensures
            final(self).state == settled(old(self).state, went_well),
            final(self).pump_claimed == old(self).pump_claimed,
    {
        match self.state {
            LatchState::Fresh => {
                self.state = if went_well {
                    LatchState::Ready
                } else {
                    LatchState::Failed
                };
            },
            _ => {},
        }
    }

    /// Claims the process's one frame pump. The first claim is granted and
    /// told what to do about the startup; every later one is refused.
    pub fn claim_pump(&mut self) -> (r: Result<Admission, Fault>)
        ensures
            final(self).pump_claimed,
            final(self).state == old(self).state,
            r is Ok <==> !old(self).pump_claimed,
            r is Ok ==> r.unwrap() == admission_of(old(self).state),
            r is Err ==> r.unwrap_err() == Fault::AlreadyExists,
    {
        if self.pump_claimed {
            Err(Fault::AlreadyExists)
        } else {
            self.pump_claimed = true;
            Ok(self.enter())
        }
    }
}

/// Once a startup is recorded, no later caller changes the record.
pub proof fn lemma_record_is_final(state: LatchState, outcomes: Seq<bool>)
    requires
        state != LatchState::Fresh,
    ensures
        state_after(state, outcomes) == state,
        startups(state, outcomes) == 0,
    decreases outcomes.len(),
{
    if outcomes.len() > 0 {
        lemma_record_is_final(state, outcomes.drop_last());
    }
}

/// However many callers pass a fresh latch, the startup is run exactly
/// once, by the first of them, and everyone after the first finds its
/// outcome recorded.
pub proof fn lemma_startup_runs_once(outcomes: Seq<bool>)
    requires
        outcomes.len() > 0,
    ensures
        startups(LatchState::Fresh, outcomes) == 1,
        state_after(LatchState::Fresh, outcomes) == settled(LatchState::Fresh, outcomes[0]),
        state_after(LatchState::Fresh, outcomes) != LatchState::Fresh,
    decreases outcomes.len(),
{
    if outcomes.len() == 1 {
        assert(outcomes.drop_last().len() == 0);
        assert(state_after(LatchState::Fresh, outcomes.drop_last()) == LatchState::Fresh);
        assert(startups(LatchState::Fresh, outcomes.drop_last()) == 0);
    } else {
        lemma_startup_runs_once(outcomes.drop_last());
        assert(outcomes.drop_last()[0] == outcomes[0]);
    }
}

} // verus!
