//! The dual-thread orchestrator's decisions: the application routine
//! contracts (setup, per-tick update, per-frame draw), the one-way hand-off
//! of the simulation state to its thread, and the body of one simulation
//! wake-up.  The thread itself — spawning, sleeping, joining — is the
//! embedding program's side of the boundary; every decision it acts on is
//! made here.

use vstd::prelude::*;

verus! {

use crate::clock::DeltaAccumulator;

/// Why one-shot initialisation failed; reported, after which the program
/// runs on without a simulation thread.
#[derive(Debug, Clone)]
pub struct InitError {
    pub message: String,
}

/// The simulation state's contract: a preferred tick duration and the work
/// of one tick.  All durations are nanoseconds.
pub trait Update {
    fn step_duration(&self) -> u64;

    fn set_step_duration(&mut self, step_ns: u64);

    fn update(&mut self, delta_ns: u64);

    /// Runs once per simulation-thread wake-up, before any tick of that
    /// wake-up, whether or not a tick is due.
    fn new_frame(&mut self);
}

/// The renderer's contract: draw one frame, given the time the previous
/// frame took.
pub trait Draw {
    fn draw(&mut self, delta_ns: u64);
}

/// The one-shot initialisation routine, run before the simulation thread
/// starts.
pub trait Setup<State, Render>: Sized where State: Update, Render: Draw {
    fn init(self, state: &mut State, renderer: &mut Render) -> Result<(), InitError>;
}

/// A routine that does nothing, standing in for any role the embedding
/// program does not need.
#[derive(Debug, Default, Clone, Copy, PartialEq, Eq, Structural)]
pub struct EmptyRoutine;

impl Update for EmptyRoutine {
    fn update(&mut self, _delta_ns: u64) {
    }

    fn step_duration(&self) -> u64 {
        0
    }

    fn set_step_duration(&mut self, _step_ns: u64) {
    }

    fn new_frame(&mut self) {
    }
}

impl Draw for EmptyRoutine {
    fn draw(&mut self, _delta_ns: u64) {
    }
}

impl<State, Render> Setup<State, Render> for EmptyRoutine where State: Update, Render: Draw {
    fn init(self, _state: &mut State, _renderer: &mut Render) -> Result<(), InitError> {
        Ok(())
    }
}

/// Ownership of the simulation state value: constructed, in hand-off, or
/// owned by the spawned simulation thread for the rest of the program.
/// The transition `Uninitialised -> Preparing -> Acquired` is one-way and
/// happens at most once; trying to acquire twice is a programming error,
/// which the `requires` below exclude.
pub enum StateHandle<State> {
    /// The simulation thread owns the state for the remainder of the
    /// program.
    Acquired,
    /// Transient while the state value moves onto the thread.
    Preparing,
    /// Constructed, not yet handed to a thread.
    Uninitialised(State),
}

impl<State> StateHandle<State> {
    pub fn is_uninitialised(&self) -> (r: bool)
        ensures
            r == (self is Uninitialised),
    {
        matches!(self, StateHandle::Uninitialised(_))
    }

    pub fn is_preparing(&self) -> (r: bool)
        ensures
            r == (self is Preparing),
    {
        matches!(self, StateHandle::Preparing)
    }

    pub fn is_acquired(&self) -> (r: bool)
        ensures
            r == (self is Acquired),
    {
        matches!(self, StateHandle::Acquired)
    }

    /// Takes the state out for the thread being spawned, leaving the
    /// hand-off marker.  Acquiring any other state of the handle is a fatal
    /// programming error, excluded here.
    pub fn begin_acquire(&mut self) -> (r: State)
        requires
            *old(self) is Uninitialised,
        ensures
            *final(self) is Preparing,
            *old(self) == StateHandle::Uninitialised(r),
    {
        let mut taken = StateHandle::Preparing;
        core::mem::swap(self, &mut taken);
        match taken {
            StateHandle::Uninitialised(state) => state,
            _ => vstd::pervasive::unreached(),
        }
    }

    /// Records that the spawned thread holds the state now.
    pub fn finish_acquire(&mut self)
        requires
            *old(self) is Preparing,
        ensures
            *final(self) is Acquired,
    {
        *self = StateHandle::Acquired;
    }
}

/// One wake-up of the simulation thread: runs the per-frame hook, samples
/// the wall clock into the accumulator, then drains the accumulated time
/// tick by tick — applying the preferred step duration on the first tick of
/// the burst, as the state reported it — and returns how many ticks ran.
/// On return no full tick is left; the slack until the next tick is due is
/// `acc.time_ahead()`, and `acc.sleep_budget()` is what the thread sleeps.
pub fn simulation_frame<State: Update>(
    state: &mut State,
    acc: &mut DeltaAccumulator,
    preferred_step_ns: u64,
) -> (ticks: u64)
    requires
        old(acc).spec_step() > 0,
        preferred_step_ns > 0,
    ensures
        final(acc).spec_accumulated() < final(acc).spec_step(),
        ticks > 0 ==> final(acc).spec_step() == preferred_step_ns,
        ticks == 0 ==> final(acc).spec_step() == old(acc).spec_step()
            && final(acc).spec_accumulated() >= old(acc).spec_accumulated(),
{
    state.new_frame();
    acc.accum();
    let ghost start_accumulated = acc.spec_accumulated();
    let mut ticks: u64 = 0;
    while acc.accumulated() >= acc.step()
        invariant
            preferred_step_ns > 0,
            acc.spec_step() > 0,
            ticks + acc.spec_accumulated() <= start_accumulated,
            ticks > 0 ==> acc.spec_step() == preferred_step_ns,
            ticks == 0 ==> acc.spec_step() == old(acc).spec_step() && acc.spec_accumulated()
                == start_accumulated,
        decreases acc.spec_accumulated(),
    {
        let overstepped = acc.overstep();
        if ticks == 0 {
            acc.set_step(preferred_step_ns);
        }
        state.update(acc.step());
        ticks = ticks + 1;
    }
    ticks
}

} // verus!
