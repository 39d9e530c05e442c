//! The physics scheduler: how many steps are due at an instant, and how the
//! "last updated" marker moves.
//!
//! Instants and durations are whole nanoseconds, counted from an origin that
//! the caller picks once. The scheduler decides; the caller steps the
//! simulation, sleeps, and reads the clock.

use vstd::prelude::*;
use vstd::arithmetic::div_mod::{lemma_fundamental_div_mod, lemma_hoist_over_denominator};
use vstd::arithmetic::mul::lemma_mul_is_commutative;
use crate::mode::PhysicsRunningState;

verus! {

/// Nanoseconds that a paused loop sleeps between two looks at the mode.
pub const PAUSED_SLEEP_NANOS: u64 = 1_000_000;

/// What the loop does in one iteration.
#[derive(Debug, Clone, Copy, PartialEq, Eq, Structural)]
pub struct Tick {
    /// Steps to take back to back, before anything else.
    pub steps: u64,
    /// Nanoseconds to sleep once the steps are done; zero for no sleep.
    pub sleep_nanos: u64,
    /// Whether the marker is to be set to the clock's reading after the steps.
    pub resync: bool,
}

/// Wall-clock time from `last` to `now`; zero where `now` lies before `last`.
pub open spec fn elapsed_between(last: nat, now: nat) -> nat {
    if now >= last {
        (now - last) as nat
    } else {
        0
    }
}

/// Whole timesteps that fit between `last` and `now`.
pub open spec fn steps_due(last: nat, now: nat, timestep: nat) -> nat
    recommends
        timestep > 0,
{
    elapsed_between(last, now) / timestep
}

/// The steps one iteration takes.
pub open spec fn planned_steps(last: nat, timestep: nat, mode: PhysicsRunningState, now: nat) -> nat
    recommends
        timestep > 0,
{
    match mode {
        PhysicsRunningState::Paused => 0,
        PhysicsRunningState::RateLimited => steps_due(last, now, timestep),
        PhysicsRunningState::Uncapped => 1,
    }
}

/// The marker after one iteration's decision. Paused discards the time that
/// went by; rate-limited moves by whole timesteps, so the rest of the interval
/// is kept for the next iteration; uncapped leaves the marker to the resync
/// that follows its step.
pub open spec fn next_marker(last: nat, timestep: nat, mode: PhysicsRunningState, now: nat) -> nat
    recommends
        timestep > 0,
{
    match mode {
        PhysicsRunningState::Paused => now,
        PhysicsRunningState::RateLimited => last + steps_due(last, now, timestep) * timestep,
        PhysicsRunningState::Uncapped => last,
    }
}

/// The sleep that ends one iteration.
pub open spec fn planned_sleep(timestep: nat, mode: PhysicsRunningState) -> nat {
    match mode {
        PhysicsRunningState::Paused => PAUSED_SLEEP_NANOS as nat,
        PhysicsRunningState::RateLimited => timestep,
        PhysicsRunningState::Uncapped => 0,
    }
}

/// The timing state of the physics loop.
#[derive(Debug, Clone, Copy)]
pub struct PhysicsScheduler {
    last_updated: u64,
    timestep: u64,
}

impl PhysicsScheduler {
    /// The instant up to which simulated time has caught up with the clock.
    pub closed spec fn marker(&self) -> nat {
        self.last_updated as nat
    }

    /// The fixed duration of one physics step.
    pub closed spec fn step_nanos(&self) -> nat {
        self.timestep as nat
    }

    /// A scheduler is well formed when its timestep is positive.
    pub open spec fn wf(&self) -> bool {
        self.step_nanos() > 0
    }

    /// A scheduler that starts at `now` with the given timestep. A timestep of
    /// zero is refused: no number of steps fills an interval with it.
    pub fn new(now: u64, timestep: u64) -> (made: Option<PhysicsScheduler>)
        ensures
            made.is_some() <==> timestep > 0,
            made matches Some(s) ==> s.wf() && s.marker() == now && s.step_nanos() == timestep,
    {
        if timestep == 0 {
            None
        } else {
            Some(PhysicsScheduler { last_updated: now, timestep })
        }
    }

    /// The marker, in nanoseconds from the caller's origin.
    pub fn last_updated(&self) -> (at: u64)
        ensures
            at == self.marker(),
    {
        self.last_updated
    }

    /// The timestep, in nanoseconds.
    pub fn timestep(&self) -> (nanos: u64)
        ensures
            nanos == self.step_nanos(),
    {
        self.timestep
    }

    /// Decides one iteration of the loop from the mode just read and the
    /// clock's reading, and moves the marker accordingly.
    pub fn poll(&mut self, mode: PhysicsRunningState, now: u64) -> (tick: Tick)
        requires
            old(self).wf(),
        ensures
            final(self).wf(),
            final(self).step_nanos() == old(self).step_nanos(),
            final(self).marker() == next_marker(old(self).marker(), old(self).step_nanos(), mode, now as nat),
            tick.steps == planned_steps(old(self).marker(), old(self).step_nanos(), mode, now as nat),
            tick.sleep_nanos == planned_sleep(old(self).step_nanos(), mode),
            tick.resync == (mode == PhysicsRunningState::Uncapped),
    {
        match mode {
            PhysicsRunningState::Paused => {
                self.last_updated = now;
                Tick { steps: 0, sleep_nanos: PAUSED_SLEEP_NANOS, resync: false }
            },
            PhysicsRunningState::RateLimited => {
                let elapsed: u64 = if now >= self.last_updated {
                    now - self.last_updated
                } else {
                    0
                };
                let steps: u64 = elapsed / self.timestep;
                proof {
                    lemma_whole_steps_fit(elapsed as nat, self.timestep as nat);
                }
                self.last_updated = self.last_updated + steps * self.timestep;
                Tick { steps, sleep_nanos: self.timestep, resync: false }
            },
            PhysicsRunningState::Uncapped => Tick { steps: 1, sleep_nanos: 0, resync: true },
        }
    }

    /// Sets the marker to the clock's reading: what an uncapped iteration does
    /// once its step is done.
    pub fn resync(&mut self, now: u64)
        ensures
            final(self).marker() == now,
            final(self).step_nanos() == old(self).step_nanos(),
    {
        self.last_updated = now;
    }
}

/// The whole steps that fit in an interval never last longer than it, and
/// what is left over is shorter than one step.
pub proof fn lemma_whole_steps_fit(elapsed: nat, timestep: nat)
    requires
        timestep > 0,
    ensures
        (elapsed / timestep) * timestep <= elapsed,
        elapsed - (elapsed / timestep) * timestep < timestep,
        elapsed - (elapsed / timestep) * timestep == elapsed % timestep,
{
    lemma_fundamental_div_mod(elapsed as int, timestep as int);
    lemma_mul_is_commutative((elapsed / timestep) as int, timestep as int);
}

/// Steps that rate-limited iterations take in all when they look at the
/// clock at the instants `times`, one after the other, starting from the
/// marker `last`.
pub open spec fn steps_over(last: nat, timestep: nat, times: Seq<nat>) -> nat
    recommends
        timestep > 0,
    decreases times.len(),
{
    if times.len() == 0 {
        0
    } else {
        steps_due(last, times[0], timestep) + steps_over(
            next_marker(last, timestep, PhysicsRunningState::RateLimited, times[0]),
            timestep,
            times.drop_first(),
        )
    }
}

/// The marker after rate-limited iterations at the instants `times`.
pub open spec fn marker_over(last: nat, timestep: nat, times: Seq<nat>) -> nat
    recommends
        timestep > 0,
    decreases times.len(),
{
    if times.len() == 0 {
        last
    } else {
        marker_over(
            next_marker(last, timestep, PhysicsRunningState::RateLimited, times[0]),
            timestep,
            times.drop_first(),
        )
    }
}

/// Whether the instants never go back and none lies before `last`.
pub open spec fn clock_readings(last: nat, times: Seq<nat>) -> bool {
    &&& forall|i: int| 0 <= i < times.len() ==> last <= #[trigger] times[i]
    &&& forall|i: int, j: int| 0 <= i <= j < times.len() ==> times[i] <= times[j]
}

/// A rate-limited iteration takes `floor(elapsed / timestep)` steps and moves
/// the marker by exactly that many timesteps, not by the elapsed time: the
/// marker never passes the clock, and less than one timestep is left between
/// them.
pub proof fn lemma_rate_limited_step_count(last: nat, timestep: nat, now: nat)
    requires
        timestep > 0,
        last <= now,
    ensures
        planned_steps(last, timestep, PhysicsRunningState::RateLimited, now) == (now - last) / (
        timestep as int),
        next_marker(last, timestep, PhysicsRunningState::RateLimited, now) == last + planned_steps(
            last,
            timestep,
            PhysicsRunningState::RateLimited,
            now,
        ) * timestep,
        next_marker(last, timestep, PhysicsRunningState::RateLimited, now) <= now,
        now - next_marker(last, timestep, PhysicsRunningState::RateLimited, now) < timestep,
{
    lemma_whole_steps_fit((now - last) as nat, timestep);
}

/// Two rate-limited iterations, at `first` and then at `second`, take
/// together the steps that a single one at `second` would take, and leave the
/// marker where that one would leave it.
pub proof fn lemma_two_polls_as_one(last: nat, timestep: nat, first: nat, second: nat)
    requires
        timestep > 0,
        last <= first <= second,
    ensures
        steps_due(last, first, timestep) + steps_due(
            next_marker(last, timestep, PhysicsRunningState::RateLimited, first),
            second,
            timestep,
        ) == steps_due(last, second, timestep),
        next_marker(
            next_marker(last, timestep, PhysicsRunningState::RateLimited, first),
            timestep,
            PhysicsRunningState::RateLimited,
            second,
        ) == next_marker(last, timestep, PhysicsRunningState::RateLimited, second),
{
    let taken = steps_due(last, first, timestep);
    let middle = next_marker(last, timestep, PhysicsRunningState::RateLimited, first);
    lemma_whole_steps_fit((first - last) as nat, timestep);
    assert(middle == last + taken * timestep);
    assert(middle <= first);
    let rest = (second - middle) as int;
    lemma_hoist_over_denominator(rest, taken as int, timestep);
    assert(rest + taken * timestep == second - last);
    assert(rest / (timestep as int) + taken == (second - last) / (timestep as int));
    let later = steps_due(middle, second, timestep);
    assert(later == rest / (timestep as int));
    assert((taken + later) * timestep == taken * timestep + later * timestep) by (nonlinear_arith);
}

/// Accumulation is lossless across polls: however often a rate-limited loop
/// looks at the clock on the way, the steps it has taken by the last look are
/// those of one look at that instant, `floor(elapsed / timestep)`, and the
/// marker has moved by that many timesteps.
pub proof fn lemma_polls_accumulate(last: nat, timestep: nat, times: Seq<nat>)
    requires
        timestep > 0,
        times.len() > 0,
        clock_readings(last, times),
    ensures
        steps_over(last, timestep, times) == steps_due(last, times.last(), timestep),
        marker_over(last, timestep, times) == last + steps_due(last, times.last(), timestep)
            * timestep,
    decreases times.len(),
{
    let first = times[0];
    let middle = next_marker(last, timestep, PhysicsRunningState::RateLimited, first);
    let rest = times.drop_first();
    lemma_whole_steps_fit((first - last) as nat, timestep);
    assert(middle <= first);
    if rest.len() == 0 {
        assert(times.last() == first);
        assert(steps_over(middle, timestep, rest) == 0);
        assert(marker_over(middle, timestep, rest) == middle);
    } else {
        assert forall|i: int| 0 <= i < rest.len() implies middle <= #[trigger] rest[i] by {
            assert(rest[i] == times[i + 1]);
            assert(times[0] <= times[i + 1]);
        }
        assert forall|i: int, j: int| 0 <= i <= j < rest.len() implies rest[i] <= rest[j] by {
            assert(rest[i] == times[i + 1]);
            assert(rest[j] == times[j + 1]);
        }
        lemma_polls_accumulate(middle, timestep, rest);
        assert(rest.last() == times.last());
        assert(first <= times.last()) by {
            assert(times[0] <= times[times.len() - 1]);
        }
        lemma_two_polls_as_one(last, timestep, first, times.last());
    }
}

/// Time spent paused is discarded: after a paused iteration at `paused_at`,
/// the steps of a rate-limited iteration at `resumed_at` count from
/// `paused_at` alone, whatever the marker was before the pause, and none is
/// taken when less than one timestep has gone by since.
pub proof fn lemma_pause_discards_delay(
    last: nat,
    timestep: nat,
    paused_at: nat,
    resumed_at: nat,
)
    requires
        timestep > 0,
        paused_at <= resumed_at,
    ensures
        planned_steps(last, timestep, PhysicsRunningState::Paused, paused_at) == 0,
        planned_steps(
            next_marker(last, timestep, PhysicsRunningState::Paused, paused_at),
            timestep,
            PhysicsRunningState::RateLimited,
            resumed_at,
        ) == (resumed_at - paused_at) / (timestep as int),
        resumed_at - paused_at < timestep ==> planned_steps(
            next_marker(last, timestep, PhysicsRunningState::Paused, paused_at),
            timestep,
            PhysicsRunningState::RateLimited,
            resumed_at,
        ) == 0,
{
    if resumed_at - paused_at < timestep {
        vstd::arithmetic::div_mod::lemma_basic_div((resumed_at - paused_at) as int, timestep as int);
    }
}

} // verus!
