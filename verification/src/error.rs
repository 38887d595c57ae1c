//! The ways in which a command of the shell can fail.

use vstd::prelude::*;
use vstd::string::*;
use crate::window_name::WindowName;

verus! {

/// Why a window was not created.
#[derive(Clone, Debug, PartialEq, Eq)]
pub enum WindowFailure {
    /// A window of that name is open already.
    Duplicate(WindowName),
    /// The windowing system refused; the text is its own.
    Platform(String),
}

/// A failed command. Every failure ends the one invocation it happened in:
/// nothing is retried, and the caller decides whether to invoke again.
#[derive(Clone, Debug, PartialEq, Eq)]
pub enum CommandError {
    /// The settings document could not be opened or read.
    Store(String),
    /// A window could not be created.
    Window(WindowFailure),
    /// The machine did not answer the query about itself.
    HostInfo(String),
    /// The validation service could not be reached or did not answer.
    Validation(String),
}

/// The text that reports a second window of the name `name`.
pub open spec fn duplicate_message(name: WindowName) -> Seq<char> {
    "a window with label `"@ + name.label_spec() + "` already exists"@
}

impl WindowFailure {
    /// The failure as the caller of a command reads it.
    pub open spec fn message_spec(self) -> Seq<char> {
        match self {
            WindowFailure::Duplicate(name) => duplicate_message(name),
            WindowFailure::Platform(text) => text@,
        }
    }

    /// The failure as the caller of a command reads it: the platform's own
    /// words, or a sentence that names the window that exists already.
    pub fn message(&self) -> (text: String)
        ensures
            text@ == self.message_spec(),
    {
        match self {
            WindowFailure::Duplicate(name) => {
                String::from_str("a window with label `").concat(name.label()).concat(
                    "` already exists",
                )
            },
            WindowFailure::Platform(text) => text.clone(),
        }
    }
}

impl CommandError {
    /// The failure as the caller of a command reads it.
    pub open spec fn message_spec(self) -> Seq<char> {
        match self {
            CommandError::Store(text) => text@,
            CommandError::Window(failure) => failure.message_spec(),
            CommandError::HostInfo(text) => text@,
            CommandError::Validation(text) => text@,
        }
    }

    /// The failure as the caller of a command reads it. The kind of failure
    /// is in the variant; the text keeps the words of whoever failed.
    pub fn message(&self) -> (text: String)
        ensures
            text@ == self.message_spec(),
    {
        match self {
            CommandError::Store(text) => text.clone(),
            CommandError::Window(failure) => failure.message(),
            CommandError::HostInfo(text) => text.clone(),
            CommandError::Validation(text) => text.clone(),
        }
    }
}

} // verus!
