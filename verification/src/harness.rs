//! The state that the presentation context owns, and how window events move
//! it.

use vstd::prelude::*;
use crate::input::{command, command_of, Command, WindowInput};
use crate::mode::{
    frame_rate, frame_rate_of, running_mode, toggled, with_preference, PhysicsRunningState,
    PhysicsState,
};
use crate::scheduler::elapsed_between;

verus! {

/// How an application runs.
#[derive(Debug, Clone, Copy, PartialEq, Eq, Structural)]
pub enum Launch {
    /// The physics loop gets a context of its own, with the control hook, and
    /// the presentation loop runs on the calling one.
    Windowed,
    /// There is nothing to present: the calling context steps the simulation
    /// without pause.
    Headless,
}

/// What the presentation context does once an event was handled.
#[derive(Debug, Clone, Copy, PartialEq, Eq, Structural)]
pub enum Reaction {
    /// Leave the presentation loop.
    Exit,
    /// Publish the record, then snapshot the simulation and present a frame.
    Draw,
    /// Publish the record, whose mode may have changed.
    Publish,
    /// Nothing.
    Nothing,
}

/// The application as the presentation context sees it: what was configured,
/// the record it publishes to the physics loop, and the user's preference.
#[derive(Debug, Clone, Copy, PartialEq, Eq, Structural)]
pub struct MujocoApp {
    /// Whether a control hook runs before each step.
    pub control: bool,
    /// Whether there is a window to present in.
    pub rendering: bool,
    /// Whether a callback runs after each frame.
    pub render_callback: bool,
    /// The record that the physics loop reads.
    pub physics_state: PhysicsState,
    /// Whether a running loop is to track wall-clock time.
    pub frame_rate_limited: bool,
    /// Instant of the last frame, in nanoseconds from the caller's origin.
    pub last_render: u64,
}

impl MujocoApp {
    /// A running loop runs in the preferred mode, and a frame callback needs a
    /// window.
    pub open spec fn wf(self) -> bool {
        &&& self.physics_state.running_state.is_running() ==> self.physics_state.running_state
            == running_mode(self.frame_rate_limited)
        &&& self.render_callback ==> self.rendering
    }

    /// The application with another mode and preference, all else the same.
    pub open spec fn with_mode(self, mode: PhysicsRunningState, frame_rate_limited: bool) -> MujocoApp {
        MujocoApp {
            control: self.control,
            rendering: self.rendering,
            render_callback: self.render_callback,
            physics_state: PhysicsState {
                running_state: mode,
                frame_rate: self.physics_state.frame_rate,
            },
            frame_rate_limited,
            last_render: self.last_render,
        }
    }

    /// The application after a frame at `now`: where there is a window, the
    /// rate of this frame is recorded and `now` remembered; the mode stays.
    pub open spec fn after_frame(self, now: u64) -> MujocoApp {
        if self.rendering {
            MujocoApp {
                control: self.control,
                rendering: self.rendering,
                render_callback: self.render_callback,
                physics_state: PhysicsState {
                    running_state: self.physics_state.running_state,
                    frame_rate: frame_rate_of(
                        elapsed_between(self.last_render as nat, now as nat),
                    ) as u64,
                },
                frame_rate_limited: self.frame_rate_limited,
                last_render: now,
            }
        } else {
            self
        }
    }

    /// The application after the toggle key: the preference stays, a paused
    /// loop starts in the preferred mode, a running loop pauses.
    pub open spec fn after_toggle(self) -> MujocoApp {
        self.with_mode(
            toggled(self.physics_state.running_state, self.frame_rate_limited),
            self.frame_rate_limited,
        )
    }

    /// The application after the preference key: the preference is flipped,
    /// and a running loop takes the newly preferred mode.
    pub open spec fn after_flip(self) -> MujocoApp {
        self.with_mode(
            with_preference(self.physics_state.running_state, !self.frame_rate_limited),
            !self.frame_rate_limited,
        )
    }

    /// The application after a command that arrived at `now`.
    pub open spec fn after_command(self, asked: Command, now: u64) -> MujocoApp {
        match asked {
            Command::Toggle => self.after_toggle(),
            Command::FlipPreference => self.after_flip(),
            Command::Redraw => self.after_frame(now),
            Command::Quit => self,
            Command::Nothing => self,
        }
    }

    /// What the presentation context does after a command.
    pub open spec fn reaction_to(self, asked: Command) -> Reaction {
        match asked {
            Command::Quit => Reaction::Exit,
            Command::Redraw => if self.rendering {
                Reaction::Draw
            } else {
                Reaction::Nothing
            },
            Command::Toggle => Reaction::Publish,
            Command::FlipPreference => Reaction::Publish,
            Command::Nothing => Reaction::Nothing,
        }
    }

    /// How the application is to be run: windowed where there is a window,
    /// headless where there is none.
    pub fn run_app(&self) -> (launch: Launch)
        ensures
            launch == (if self.rendering {
                Launch::Windowed
            } else {
                Launch::Headless
            }),
    {
        if self.rendering {
            Launch::Windowed
        } else {
            Launch::Headless
        }
    }

    /// Whether the next redraw is to be requested before the presentation
    /// context waits for events: always, where there is a window.
    pub fn about_to_wait(&self) -> (request_redraw: bool)
        ensures
            request_redraw == self.rendering,
    {
        self.rendering
    }

    /// Books a frame at `now` and says whether there is a window to draw it
    /// in.
    pub fn render(&mut self, now: u64) -> (draw: bool)
        ensures
            *final(self) == old(self).after_frame(now),
            draw == old(self).rendering,
            old(self).wf() ==> final(self).wf(),
    {
        if self.rendering {
            let elapsed: u64 = if now >= self.last_render {
                now - self.last_render
            } else {
                0
            };
            self.physics_state.frame_rate = frame_rate(elapsed);
            self.last_render = now;
            true
        } else {
            false
        }
    }

    /// Pauses a running loop, or starts a paused one in the preferred mode.
    pub fn toggle(&mut self)
        ensures
            *final(self) == old(self).after_toggle(),
            old(self).wf() ==> final(self).wf(),
    {
        self.physics_state.running_state = self.physics_state.running_state.toggle(
            self.frame_rate_limited,
        );
    }

    /// Flips the preference; a running loop changes mode at once.
    pub fn flip_preference(&mut self)
        ensures
            *final(self) == old(self).after_flip(),
            old(self).wf() ==> final(self).wf(),
    {
        self.frame_rate_limited = !self.frame_rate_limited;
        self.physics_state.running_state = self.physics_state.running_state.apply_preference(
            self.frame_rate_limited,
        );
    }

    /// Handles one window event that arrived at `now`.
    pub fn window_event(&mut self, event: &WindowInput, now: u64) -> (reaction: Reaction)
        ensures
            *final(self) == old(self).after_command(command_of(*event), now),
            reaction == old(self).reaction_to(command_of(*event)),
            old(self).wf() ==> final(self).wf(),
    {
        match command(event) {
            Command::Quit => Reaction::Exit,
            Command::Redraw => {
                if self.render(now) {
                    Reaction::Draw
                } else {
                    Reaction::Nothing
                }
            },
            Command::Toggle => {
                self.toggle();
                Reaction::Publish
            },
            Command::FlipPreference => {
                self.flip_preference();
                Reaction::Publish
            },
            Command::Nothing => Reaction::Nothing,
        }
    }
}

/// The application after the commands `asked`, all arriving at `now`.
pub open spec fn after_commands(start: MujocoApp, asked: Seq<Command>, now: u64) -> MujocoApp
    decreases asked.len(),
{
    if asked.len() == 0 {
        start
    } else {
        after_commands(start, asked.drop_last(), now).after_command(asked.last(), now)
    }
}

/// Whatever commands arrive, the record holds exactly one of the three
/// modes, and a running loop runs in the mode that the preference names.
pub proof fn lemma_mode_always_valid(start: MujocoApp, asked: Seq<Command>, now: u64)
    requires
        start.wf(),
    ensures
        after_commands(start, asked, now).wf(),
        ({
            let mode = after_commands(start, asked, now).physics_state.running_state;
            &&& (mode == PhysicsRunningState::Paused || mode == PhysicsRunningState::RateLimited
                || mode == PhysicsRunningState::Uncapped)
            &&& !(mode == PhysicsRunningState::Paused && mode == PhysicsRunningState::RateLimited)
            &&& !(mode == PhysicsRunningState::Paused && mode == PhysicsRunningState::Uncapped)
            &&& !(mode == PhysicsRunningState::RateLimited && mode == PhysicsRunningState::Uncapped)
        }),
    decreases asked.len(),
{
    if asked.len() > 0 {
        lemma_mode_always_valid(start, asked.drop_last(), now);
    }
}

/// Flipping the preference while the loop runs changes the mode at once,
/// from uncapped to rate-limited and from rate-limited to uncapped, and never
/// pauses it; a paused loop stays paused.
pub proof fn lemma_preference_flip_is_immediate(before: MujocoApp, now: u64)
    requires
        before.wf(),
    ensures
        before.physics_state.running_state == PhysicsRunningState::Uncapped ==> before.after_command(
            Command::FlipPreference,
            now,
        ).physics_state.running_state == PhysicsRunningState::RateLimited,
        before.physics_state.running_state == PhysicsRunningState::RateLimited
            ==> before.after_command(Command::FlipPreference, now).physics_state.running_state
            == PhysicsRunningState::Uncapped,
        before.physics_state.running_state == PhysicsRunningState::Paused ==> before.after_command(
            Command::FlipPreference,
            now,
        ).physics_state.running_state == PhysicsRunningState::Paused,
        before.after_command(Command::FlipPreference, now).frame_rate_limited
            == !before.frame_rate_limited,
{
}

/// The toggle key pauses whatever was running, and starts a paused loop in
/// the preferred mode.
pub proof fn lemma_toggle_pauses_or_starts(before: MujocoApp, now: u64)
    ensures
        before.physics_state.running_state.is_running() ==> before.after_command(
            Command::Toggle,
            now,
        ).physics_state.running_state == PhysicsRunningState::Paused,
        !before.physics_state.running_state.is_running() ==> before.after_command(
            Command::Toggle,
            now,
        ).physics_state.running_state == running_mode(before.frame_rate_limited),
{
}

} // verus!
