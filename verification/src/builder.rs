//! What an application is built from, and what the builder refuses.

use vstd::prelude::*;
use vstd::string::StringExecFns;
use crate::harness::MujocoApp;
use crate::mode::{PhysicsRunningState, PhysicsState, INITIAL_FRAME_RATE};

verus! {

/// Why the builder refused.
#[derive(Debug, Clone)]
pub struct AppBuilderErr(pub String);

impl AppBuilderErr {
    /// The reason, as text.
    pub fn message(&self) -> (text: &str)
        ensures
            text@ == self.0@,
    {
        self.0.as_str()
    }
}

/// The reason given when the model description `xml` could not be loaded.
pub open spec fn load_failure(xml: Seq<char>) -> Seq<char> {
    "Failed to load xml file: '"@ + xml + "'"@
}

/// The reason given when a frame callback is asked for before a window.
pub open spec fn callback_without_rendering() -> Seq<char> {
    "'with_custom_render_callback' Requires rendering to be setup already!"@
}

/// What was asked of the application so far.
#[derive(Debug, Clone, Copy, PartialEq, Eq, Structural)]
pub struct AppBuilder {
    /// Whether a control hook was given.
    pub control: bool,
    /// Whether a window was set up.
    pub rendering: bool,
    /// Whether a frame callback was given.
    pub render_callback: bool,
}

impl AppBuilder {
    /// A frame callback needs a window.
    pub open spec fn wf(self) -> bool {
        self.render_callback ==> self.rendering
    }

    /// The builder for a model that is loaded: nothing else is set.
    pub fn from_model() -> (builder: AppBuilder)
        ensures
            builder == (AppBuilder { control: false, rendering: false, render_callback: false }),
    {
        AppBuilder { control: false, rendering: false, render_callback: false }
    }

    /// The builder for the model description `xml`, given whether the engine
    /// could load it. A failed load is an error that names the description.
    pub fn from_xml(xml: String, loaded: bool) -> (made: Result<AppBuilder, AppBuilderErr>)
        ensures
            made.is_ok() <==> loaded,
            made matches Ok(builder) ==> builder == (AppBuilder {
                control: false,
                rendering: false,
                render_callback: false,
            }),
            made matches Err(error) ==> error.0@ == load_failure(xml@),
    {
        if loaded {
            Ok(AppBuilder::from_model())
        } else {
            let text = String::from_str("Failed to load xml file: '").concat(xml.as_str()).concat(
                "'",
            );
            Err(AppBuilderErr(text))
        }
    }

    /// The application at its start, `now` being the instant of the build:
    /// paused, rate-limited by preference, at the initial frame rate.
    pub fn build(self, now: u64) -> (made: MujocoApp)
        ensures
            made == (MujocoApp {
                control: self.control,
                rendering: self.rendering,
                render_callback: self.render_callback,
                physics_state: PhysicsState {
                    running_state: PhysicsRunningState::Paused,
                    frame_rate: INITIAL_FRAME_RATE,
                },
                frame_rate_limited: true,
                last_render: now,
            }),
            self.wf() ==> made.wf(),
    {
        MujocoApp {
            control: self.control,
            rendering: self.rendering,
            render_callback: self.render_callback,
            physics_state: PhysicsState::new(),
            frame_rate_limited: true,
            last_render: now,
        }
    }

    /// Adds a control hook.
    pub fn with_control(self) -> (builder: AppBuilder)
        ensures
            builder == (AppBuilder { control: true, ..self }),
    {
        AppBuilder { control: true, rendering: self.rendering, render_callback: self.render_callback }
    }

    /// Sets up a window; a frame callback given before is dropped with the
    /// window it belonged to.
    pub fn with_default_rendering(self) -> (builder: AppBuilder)
        ensures
            builder == (AppBuilder { rendering: true, render_callback: false, ..self }),
            builder.wf(),
    {
        AppBuilder { control: self.control, rendering: true, render_callback: false }
    }

    /// Adds a frame callback, which needs a window to be set up already.
    pub fn with_custom_render_callback(self) -> (made: Result<AppBuilder, AppBuilderErr>)
        ensures
            made.is_ok() <==> self.rendering,
            made matches Ok(builder) ==> builder == (AppBuilder { render_callback: true, ..self }),
            made matches Err(error) ==> error.0@ == callback_without_rendering(),
    {
        if self.rendering {
            Ok(AppBuilder { control: self.control, rendering: true, render_callback: true })
        } else {
            Err(
                AppBuilderErr(
                    String::from_str(
                        "'with_custom_render_callback' Requires rendering to be setup already!",
                    ),
                ),
            )
        }
    }
}

} // verus!
