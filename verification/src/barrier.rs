//! The termination barrier: how the workers find out that no work is left.
//!
//! A worker that finds both queues empty arrives at the barrier. The last
//! worker to arrive while all the others are parked declares the run done and
//! wakes them; every other worker parks until it is woken. The handle on a
//! run guards the state with a mutex and parks on a condition variable; the
//! state itself and every change to it are here.

use vstd::prelude::*;

verus! {

/// What a worker does after it arrived at the barrier.
#[derive(Clone, Copy, Debug, PartialEq, Eq, Structural)]
pub enum BarrierAction {
    /// The run is done: leave.
    Exit,
    /// Every other worker is parked: the run is done. Wake them all and leave.
    WakeAllAndExit,
    /// Park until woken, then report back with [`TerminationState::resume`].
    Park,
}

/// Whether a worker that is told `action` leaves for good: it does unless it
/// is told to park.
pub open spec fn leaves_on(action: BarrierAction) -> bool {
    action != BarrierAction::Park
}

impl BarrierAction {
    /// Whether a worker that is told this leaves for good.
    pub fn leaves(self) -> (leave: bool)
        ensures
            leave == leaves_on(self),
    {
        match self {
            BarrierAction::Exit => true,
            BarrierAction::WakeAllAndExit => true,
            BarrierAction::Park => false,
        }
    }
}

/// The mathematical value of a [`TerminationState`].
pub struct TerminationModel {
    /// How many workers the pool has.
    pub workers: u8,
    /// How many of them are parked.
    pub waiting: u8,
    /// Whether the run was declared done.
    pub done: bool,
}

/// What every state of the barrier satisfies: the pool has a worker, and
/// never are all of its workers parked.
pub open spec fn settled(state: TerminationModel) -> bool {
    state.workers >= 1 && state.waiting < state.workers
}

/// The state in which a worker leaves the barrier that it found in `state`.
pub open spec fn state_after_arrival(state: TerminationModel) -> TerminationModel {
    if state.done {
        state
    } else if state.waiting + 1 == state.workers {
        TerminationModel { done: true, ..state }
    } else {
        TerminationModel { waiting: (state.waiting + 1) as u8, ..state }
    }
}

/// What a worker does that found the barrier in `state`.
pub open spec fn action_on_arrival(state: TerminationModel) -> BarrierAction {
    if state.done {
        BarrierAction::Exit
    } else if state.waiting + 1 == state.workers {
        BarrierAction::WakeAllAndExit
    } else {
        BarrierAction::Park
    }
}

/// The state after a parked worker woke up.
pub open spec fn state_after_wakeup(state: TerminationModel) -> TerminationModel {
    if state.waiting > 0 {
        TerminationModel { waiting: (state.waiting - 1) as u8, ..state }
    } else {
        state
    }
}

/// The shared state of the barrier.
#[derive(Debug)]
pub struct TerminationState {
    workers: u8,
    waiting: u8,
    done: bool,
}

impl View for TerminationState {
    type V = TerminationModel;

    closed spec fn view(&self) -> TerminationModel {
        TerminationModel { workers: self.workers, waiting: self.waiting, done: self.done }
    }
}

impl TerminationState {
    #[verifier::type_invariant]
    spec fn never_all_parked(self) -> bool {
        self.workers >= 1 && self.waiting < self.workers
    }

    /// The barrier of a pool of `workers` workers, none of them parked.
    pub fn new(workers: u8) -> (state: TerminationState)
        requires
            workers >= 1,
        ensures
            state@ == (TerminationModel { workers, waiting: 0, done: false }),
    {
        TerminationState { workers, waiting: 0, done: false }
    }

    /// Whether the run was declared done.
    pub fn is_done(&self) -> (done: bool)
        ensures
            done == self@.done,
            settled(self@),
    {
        proof {
            use_type_invariant(self);
        }
        self.done
    }

    /// How many workers are parked.
    pub fn waiting(&self) -> (waiting: u8)
        ensures
            waiting == self@.waiting,
            settled(self@),
    {
        proof {
            use_type_invariant(self);
        }
        self.waiting
    }

    /// A worker that found both queues empty arrives. It must hold the lock
    /// on the state from before this call until it has parked or left.
    pub fn arrive(&mut self) -> (action: BarrierAction)
        ensures
            settled(old(self)@),
            action == action_on_arrival(old(self)@),
            final(self)@ == state_after_arrival(old(self)@),
            settled(final(self)@),
    {
        proof {
            use_type_invariant(&*self);
        }
        if self.done {
            BarrierAction::Exit
        } else if self.waiting == self.workers - 1 {
            self.done = true;
            BarrierAction::WakeAllAndExit
        } else {
            self.waiting = self.waiting + 1;
            BarrierAction::Park
        }
    }

    /// A parked worker woke up and holds the lock again.
    pub fn resume(&mut self)
        ensures
            final(self)@ == state_after_wakeup(old(self)@),
            settled(final(self)@),
    {
        proof {
            use_type_invariant(&*self);
        }
        if self.waiting > 0 {
            self.waiting = self.waiting - 1;
        }
    }
}

} // verus!
