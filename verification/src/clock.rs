//! Wall-clock sampling and fixed-timestep accumulation.
//!
//! All durations are carried as whole nanoseconds in `u64` values, so that
//! the arithmetic the accumulator performs can be stated and proved exactly.

use vstd::prelude::*;

verus! {

use vstd::arithmetic::div_mod::{lemma_fundamental_div_mod, lemma_fundamental_div_mod_converse};

#[verifier::external_type_specification]
#[verifier::external_body]
pub struct ExInstant(std::time::Instant);

pub assume_specification[ std::time::Instant::now ]() -> (r: std::time::Instant);

/// Relies on `Instant`'s `Clone`: `Instant` is a `Copy` type, so a clone is
/// the same value.
pub assume_specification[ <std::time::Instant as std::clone::Clone>::clone ](
    v: &std::time::Instant,
) -> (r: std::time::Instant)
    ensures
        r == *v,
;

/// Relies on `std::time::Instant::duration_since` (and `Duration::as_nanos`
/// to read the result out as a number): the time elapsed from `earlier` to
/// `later` in nanoseconds, zero if `later` is the earlier of the two.  The
/// result depends on the wall clock, so nothing is promised of its value.
#[verifier::external_body]
pub(crate) fn nanos_between(earlier: &std::time::Instant, later: &std::time::Instant) -> u64 {
    later.duration_since(*earlier).as_nanos() as u64
}

/// Relies on `std::time::Instant::elapsed`: spins on the wall clock until
/// more than `timeout_ns` nanoseconds have passed since `start`, then
/// returns the elapsed time it measured.  No termination measure exists for
/// a wait on the wall clock, so the wait stands behind this trusted item;
/// the result is above `timeout_ns` because the spin ends only then.
#[verifier::external_body]
pub(crate) fn wait_past_deadline(start: &std::time::Instant, timeout_ns: u64) -> (r: u64)
    ensures
        r > timeout_ns,
{
    let mut waited = start.elapsed().as_nanos() as u64;
    while waited <= timeout_ns {
        waited = start.elapsed().as_nanos() as u64;
    }
    waited
}

/// Samples the wall clock and remembers the time elapsed between the two
/// most recent `sync` calls, in nanoseconds.
#[derive(Clone, Debug)]
pub struct DeltaCycle {
    last: std::time::Instant,
    delta_ns: u64,
}

impl DeltaCycle {
    /// The nanoseconds elapsed between the two most recent `sync` calls.
    pub closed spec fn delta_nanos(&self) -> u64 {
        self.delta_ns
    }

    pub fn new(start_time: std::time::Instant) -> (r: Self)
        ensures
            r.delta_nanos() == 0,
    {
        DeltaCycle { last: start_time, delta_ns: 0 }
    }

    /// Samples the wall clock: the stored delta becomes the time elapsed
    /// since the previous sample.  The value read from the clock cannot be
    /// pinned down, so nothing more is stated of it.
    pub fn sync(&mut self) {
        let now = std::time::Instant::now();
        self.delta_ns = nanos_between(&self.last, &now);
        self.last = now;
    }

    pub fn delta_time(&self) -> (r: u64)
        ensures
            r == self.delta_nanos(),
    {
        self.delta_ns
    }
}

impl Default for DeltaCycle {
    /// A cycle anchored at the moment of its creation.
    fn default() -> (r: Self)
        ensures
            r.delta_nanos() == 0,
    {
        DeltaCycle::new(std::time::Instant::now())
    }
}

impl Default for DeltaAccumulator {
    /// An accumulator with no target step yet, anchored at the moment of
    /// its creation.
    fn default() -> (r: Self)
        ensures
            r.spec_step() == 0,
            r.spec_accumulated() == 0,
    {
        DeltaAccumulator::new(0, std::time::Instant::now())
    }
}

/// Accumulates elapsed wall time and hands it out in fixed-size steps
/// ("ticks"), decoupling the simulation rate from the rate at which the
/// driving loop wakes up.
#[derive(Clone, Debug)]
pub struct DeltaAccumulator {
    step_ns: u64,
    accumulated_ns: u64,
    cycle: DeltaCycle,
}

impl DeltaAccumulator {
    /// The target tick duration in nanoseconds.
    pub closed spec fn spec_step(&self) -> u64 {
        self.step_ns
    }

    /// The elapsed time not yet consumed by ticks, in nanoseconds.
    pub closed spec fn spec_accumulated(&self) -> u64 {
        self.accumulated_ns
    }

    pub closed spec fn spec_cycle(&self) -> DeltaCycle {
        self.cycle
    }

    pub fn new(step_ns: u64, start_time: std::time::Instant) -> (r: Self)
        ensures
            r.spec_step() == step_ns,
            r.spec_accumulated() == 0,
            r.spec_cycle().delta_nanos() == 0,
    {
        DeltaAccumulator {
            step_ns,
            accumulated_ns: 0,
            cycle: DeltaCycle::new(start_time),
        }
    }

    pub fn step(&self) -> (r: u64)
        ensures
            r == self.spec_step(),
    {
        self.step_ns
    }

    pub fn set_step(&mut self, step_ns: u64)
        ensures
            final(self).spec_step() == step_ns,
            final(self).spec_accumulated() == old(self).spec_accumulated(),
            final(self).spec_cycle() == old(self).spec_cycle(),
    {
        self.step_ns = step_ns;
    }

    pub fn delta_cycle(&self) -> (r: &DeltaCycle)
        ensures
            *r == self.spec_cycle(),
    {
        &self.cycle
    }

    pub fn accumulated(&self) -> (r: u64)
        ensures
            r == self.spec_accumulated(),
    {
        self.accumulated_ns
    }

    /// How far ahead of the next due tick the accumulator is: the time the
    /// driving thread may spend before `accumulated` reaches `step`.
    pub fn time_ahead(&self) -> (r: u64)
        ensures
            r == self.spec_step().saturating_sub(self.spec_accumulated()),
    {
        self.step_ns.saturating_sub(self.accumulated_ns)
    }

    /// The portion of `time_ahead` the driving thread should actually sleep:
    /// three quarters of the slack, deliberately under-sleeping so that an
    /// oversleep does not push past the tick deadline.
    pub fn sleep_budget(&self) -> (r: u64)
        ensures
            r == self.spec_step().saturating_sub(self.spec_accumulated()) as int * 3 / 4,
    {
        let ahead = self.time_ahead();
        ((ahead as u128) * 3 / 4) as u64
    }

    /// Samples the wall clock and adds the elapsed time to the accumulator.
    /// The elapsed time itself depends on the clock, so only the direction
    /// of the change is stated.
    pub fn accum(&mut self)
        ensures
            final(self).spec_step() == old(self).spec_step(),
            final(self).spec_accumulated() >= old(self).spec_accumulated(),
    {
        self.cycle.sync();
        let elapsed = self.cycle.delta_time();
        self.accum_elapsed(elapsed);
    }

    /// Adds a known elapsed time to the accumulator; saturates at the
    /// largest representable value instead of overflowing.
    pub fn accum_elapsed(&mut self, elapsed_ns: u64)
        ensures
            final(self).spec_step() == old(self).spec_step(),
            final(self).spec_cycle() == old(self).spec_cycle(),
            final(self).spec_accumulated()
                == old(self).spec_accumulated().saturating_add(elapsed_ns),
    {
        self.accumulated_ns = self.accumulated_ns.saturating_add(elapsed_ns);
    }

    /// Consumes one full step if one has accumulated.  Returns true and
    /// subtracts `step` from `accumulated` exactly when `accumulated >= step`;
    /// callers run one simulation tick per true result.
    pub fn overstep(&mut self) -> (r: bool)
        ensures
            r == (old(self).spec_accumulated() >= old(self).spec_step()),
            final(self).spec_step() == old(self).spec_step(),
            final(self).spec_cycle() == old(self).spec_cycle(),
            r ==> final(self).spec_accumulated()
                == old(self).spec_accumulated() - old(self).spec_step(),
            !r ==> final(self).spec_accumulated() == old(self).spec_accumulated(),
    {
        let over = self.accumulated_ns >= self.step_ns;
        if over {
            self.accumulated_ns = self.accumulated_ns - self.step_ns;
        }
        over
    }
}

/// How many times `overstep` answers true, starting from `accumulated`
/// unconsumed nanoseconds, before the remainder falls below `step`.
pub open spec fn tick_count(accumulated: nat, step: nat) -> nat
    decreases accumulated,
{
    if step > 0 && accumulated >= step {
        1 + tick_count((accumulated - step) as nat, step)
    } else {
        0
    }
}

/// What `accumulated` holds once `overstep` has answered true
/// `tick_count(accumulated, step)` times.
pub open spec fn tick_residue(accumulated: nat, step: nat) -> nat
    decreases accumulated,
{
    if step > 0 && accumulated >= step {
        tick_residue((accumulated - step) as nat, step)
    } else {
        accumulated
    }
}

/// Law: for any accumulated elapsed time, draining the accumulator tick by
/// tick yields exactly `floor(accumulated / step)` ticks, and what remains
/// afterwards is exactly `accumulated % step`.
pub proof fn lemma_tick_drain(accumulated: nat, step: nat)
    requires
        step > 0,
    ensures
        tick_count(accumulated, step) == accumulated / step,
        tick_residue(accumulated, step) == accumulated % step,
    decreases accumulated,
{
    if accumulated >= step {
        lemma_tick_drain((accumulated - step) as nat, step);
        let q = tick_count((accumulated - step) as nat, step) as int;
        let r = tick_residue((accumulated - step) as nat, step) as int;
        lemma_fundamental_div_mod(accumulated - step, step as int);
        assert((q + 1) * step == q * step + step) by (nonlinear_arith);
        lemma_fundamental_div_mod_converse(accumulated as int, step as int, q + 1, r);
    } else {
        lemma_fundamental_div_mod_converse(accumulated as int, step as int, 0, accumulated as int);
    }
}

} // verus!
