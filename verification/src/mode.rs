//! The run mode of the physics loop and the record shared between the
//! stepping context and the presentation context.

use vstd::prelude::*;

verus! {

/// Frame rate, in thousandths of a frame per second, that a fresh record holds
/// before any frame was presented.
pub const INITIAL_FRAME_RATE: u64 = 60_000;

/// Nanoseconds in a thousand seconds: the frame rate in thousandths of a frame
/// per second is this number divided by the nanoseconds one frame took.
pub const NANOS_PER_KILOSECOND: u64 = 1_000_000_000_000;

/// How the physics loop paces itself.
#[derive(Debug, Clone, Copy, PartialEq, Eq, Structural)]
pub enum PhysicsRunningState {
    /// No stepping; time spent here is never made up for.
    Paused,
    /// Steps track wall-clock time, one per elapsed timestep.
    RateLimited,
    /// One step per loop iteration, as fast as the machine allows.
    Uncapped,
}

/// The mode a running (not paused) loop has under the given preference.
pub open spec fn running_mode(frame_rate_limited: bool) -> PhysicsRunningState {
    if frame_rate_limited {
        PhysicsRunningState::RateLimited
    } else {
        PhysicsRunningState::Uncapped
    }
}

/// The mode after the toggle key: a paused loop starts in the preferred
/// running mode, a running loop pauses.
pub open spec fn toggled(mode: PhysicsRunningState, frame_rate_limited: bool) -> PhysicsRunningState {
    match mode {
        PhysicsRunningState::Paused => running_mode(frame_rate_limited),
        _ => PhysicsRunningState::Paused,
    }
}

/// The mode after the preference changed to `frame_rate_limited`: a running
/// loop takes the preferred mode at once, a paused loop stays paused.
pub open spec fn with_preference(mode: PhysicsRunningState, frame_rate_limited: bool) -> PhysicsRunningState {
    match mode {
        PhysicsRunningState::Paused => PhysicsRunningState::Paused,
        _ => running_mode(frame_rate_limited),
    }
}

/// The frame rate, in thousandths of a frame per second, of frames that are
/// `elapsed_nanos` apart, rounded down; two frames in the same nanosecond give
/// the largest rate that can be held.
pub open spec fn frame_rate_of(elapsed_nanos: nat) -> nat {
    if elapsed_nanos == 0 {
        u64::MAX as nat
    } else {
        NANOS_PER_KILOSECOND as nat / elapsed_nanos
    }
}

impl PhysicsRunningState {
    /// Whether the loop is stepping in this mode.
    pub open spec fn is_running(self) -> bool {
        self != PhysicsRunningState::Paused
    }

    /// The running mode for the given preference.
    pub fn running(frame_rate_limited: bool) -> (mode: PhysicsRunningState)
        ensures
            mode == running_mode(frame_rate_limited),
    {
        if frame_rate_limited {
            PhysicsRunningState::RateLimited
        } else {
            PhysicsRunningState::Uncapped
        }
    }

    /// The mode after the toggle key was pressed.
    pub fn toggle(self, frame_rate_limited: bool) -> (mode: PhysicsRunningState)
        ensures
            mode == toggled(self, frame_rate_limited),
    {
        match self {
            PhysicsRunningState::Paused => PhysicsRunningState::running(frame_rate_limited),
            _ => PhysicsRunningState::Paused,
        }
    }

    /// The mode after the preference changed to `frame_rate_limited`.
    pub fn apply_preference(self, frame_rate_limited: bool) -> (mode: PhysicsRunningState)
        ensures
            mode == with_preference(self, frame_rate_limited),
    {
        match self {
            PhysicsRunningState::Paused => PhysicsRunningState::Paused,
            _ => PhysicsRunningState::running(frame_rate_limited),
        }
    }
}

/// The record that the presentation context writes and the physics loop reads.
#[derive(Debug, Clone, Copy, PartialEq, Eq, Structural)]
pub struct PhysicsState {
    /// The active mode.
    pub running_state: PhysicsRunningState,
    /// Last observed presentation rate, in thousandths of a frame per second.
    pub frame_rate: u64,
}

impl PhysicsState {
    /// The record an application starts with: paused, at sixty frames per
    /// second.
    pub fn new() -> (state: PhysicsState)
        ensures
            state.running_state == PhysicsRunningState::Paused,
            state.frame_rate == INITIAL_FRAME_RATE,
    {
        PhysicsState { running_state: PhysicsRunningState::Paused, frame_rate: INITIAL_FRAME_RATE }
    }

    /// Records the rate of a frame that came `elapsed_nanos` after the one
    /// before it. The mode is left alone.
    pub fn record_frame(&mut self, elapsed_nanos: u64)
        ensures
            final(self).running_state == old(self).running_state,
            final(self).frame_rate as nat == frame_rate_of(elapsed_nanos as nat),
    {
        self.frame_rate = frame_rate(elapsed_nanos);
    }
}

/// The frame rate of frames `elapsed_nanos` apart, in thousandths of a frame
/// per second.
pub fn frame_rate(elapsed_nanos: u64) -> (rate: u64)
    ensures
        rate as nat == frame_rate_of(elapsed_nanos as nat),
{
    if elapsed_nanos == 0 {
        u64::MAX
    } else {
        NANOS_PER_KILOSECOND / elapsed_nanos
    }
}

} // verus!
