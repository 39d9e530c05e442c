//! Window events as plain values, and what each of them asks of the
//! application.

use vstd::prelude::*;
use vstd::string::StrSliceExecFns;

verus! {

/// The logical key of a keyboard event.
#[derive(Debug, Clone)]
pub enum LogicalKey {
    /// The space bar.
    Space,
    /// The escape key.
    Escape,
    /// A key that produces text.
    Character(String),
    /// Any other key.
    Other,
}

/// An event of the window, reduced to what the application reads of it.
#[derive(Debug, Clone)]
pub enum WindowInput {
    /// The window was asked to close.
    CloseRequested,
    /// The window wants to be drawn again.
    RedrawRequested,
    /// A key changed state.
    KeyboardInput {
        /// Which key.
        key: LogicalKey,
        /// Whether it went down (and not up).
        pressed: bool,
        /// Whether the event comes from the key being held.
        repeat: bool,
    },
    /// Anything else.
    Other,
}

/// What an event asks for.
#[derive(Debug, Clone, Copy, PartialEq, Eq, Structural)]
pub enum Command {
    /// End the presentation loop.
    Quit,
    /// Present a frame.
    Redraw,
    /// Pause a running loop, or start a paused one.
    Toggle,
    /// Flip the frame-rate-limited preference.
    FlipPreference,
    /// Nothing.
    Nothing,
}

/// The text of the key that flips the preference.
pub open spec fn preference_key() -> Seq<char> {
    seq!['u']
}

/// What a key asks for when it goes down for the first time.
pub open spec fn key_command(key: LogicalKey) -> Command {
    match key {
        LogicalKey::Space => Command::Toggle,
        LogicalKey::Escape => Command::Quit,
        LogicalKey::Character(text) => if text@ == preference_key() {
            Command::FlipPreference
        } else {
            Command::Nothing
        },
        LogicalKey::Other => Command::Nothing,
    }
}

/// What an event asks for. Keys count on the press alone: a release and the
/// repeats of a held key ask for nothing.
pub open spec fn command_of(input: WindowInput) -> Command {
    match input {
        WindowInput::CloseRequested => Command::Quit,
        WindowInput::RedrawRequested => Command::Redraw,
        WindowInput::KeyboardInput { key, pressed, repeat } => if pressed && !repeat {
            key_command(key)
        } else {
            Command::Nothing
        },
        WindowInput::Other => Command::Nothing,
    }
}

/// Whether `text` is the text of the key that flips the preference.
pub fn is_preference_key(text: &str) -> (yes: bool)
    ensures
        yes == (text@ == preference_key()),
{
    if text.unicode_len() == 1 {
        let first = text.get_char(0);
        proof {
            if first == 'u' {
                assert(text@ =~= preference_key());
            } else {
                assert(preference_key()[0] == 'u');
            }
        }
        first == 'u'
    } else {
        proof {
            assert(preference_key().len() == 1);
        }
        false
    }
}

/// Reads the command out of an event.
pub fn command(input: &WindowInput) -> (asked: Command)
    ensures
        asked == command_of(*input),
{
    match input {
        WindowInput::CloseRequested => Command::Quit,
        WindowInput::RedrawRequested => Command::Redraw,
        WindowInput::KeyboardInput { key, pressed, repeat } => {
            if *pressed && !*repeat {
                match key {
                    LogicalKey::Space => Command::Toggle,
                    LogicalKey::Escape => Command::Quit,
                    LogicalKey::Character(text) => {
                        if is_preference_key(text.as_str()) {
                            Command::FlipPreference
                        } else {
                            Command::Nothing
                        }
                    },
                    LogicalKey::Other => Command::Nothing,
                }
            } else {
                Command::Nothing
            }
        },
        WindowInput::Other => Command::Nothing,
    }
}

} // verus!
