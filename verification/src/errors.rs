//! How failures of the outside are told apart, and what a member is told
//! whose command could not be read.

use crate::engine::Failure;
use crate::notices::{Button, Message, MessageText};
use crate::platform::{http_status, not_found, status_of, NOT_FOUND};
use vstd::prelude::*;
use vstd::string::*;

verus! {

/// The failure that an HTTP status stands for: the status 404 says that
/// what was asked for is not there; every other status, and the lack of
/// one, is some other failure.
pub open spec fn spec_classify(status: Option<u16>) -> Failure {
    if status == Some(NOT_FOUND) {
        Failure::NotFound
    } else {
        Failure::Other
    }
}

/// Tells the failure that an HTTP status stands for.
#[verifier::when_used_as_spec(spec_classify)]
pub fn classify(status: Option<u16>) -> (failure: Failure)
    ensures
        failure == spec_classify(status),
{
    match status {
        Some(status) => if status == not_found() {
            Failure::NotFound
        } else {
            Failure::Other
        },
        None => Failure::Other,
    }
}

/// Tells what kind of failure an error of the platform's library is: the
/// one that `classify` gives for the HTTP status that the error holds. An
/// error that reports a request answered with the status 404 says that
/// what was asked for is not there; every other error is some other
/// failure.
pub fn failure_of(error: &serenity::Error) -> (failure: Failure)
    ensures
        failure == spec_classify(status_of(*error)),
        failure == Failure::NotFound <==> status_of(*error) == Some(NOT_FOUND),
{
    classify(http_status(error))
}

/// What went wrong in the framework that delivers commands and events.
#[derive(Clone, Debug, PartialEq, Eq)]
pub enum FrameworkFailure {
    /// The framework could not be set up.
    Setup,
    /// The handling of an event failed.
    EventHandler,
    /// A command failed.
    Command,
    /// An argument of a command could not be read; `input` is the part that
    /// was not understood, if it is known.
    ArgumentParse { input: Option<String> },
    /// Anything else.
    Other,
}

pub const MISUNDERSTOOD: &'static str =
    "Sorry, I didn't understand your command! Can you double-check your input?\nFor the record, here's the part I didn't understand (if any): ";

/// The part of a command that was not understood, or nothing where it is
/// not known.
pub open spec fn not_understood(input: Option<String>) -> Seq<char> {
    match input {
        Some(input) => input@,
        None => Seq::empty(),
    }
}

/// What a member is told whose command could not be read.
pub open spec fn misunderstood(input: Option<String>) -> MessageText {
    MessageText {
        content: MISUNDERSTOOD@ + not_understood(input),
        ephemeral: true,
        embed: None,
        buttons: Seq::empty(),
    }
}

/// The reply that a failure of the framework calls for: a member whose
/// command could not be read is told so, in a message for their eyes
/// only; every other failure calls for none.
pub fn error_handler(failure: &FrameworkFailure) -> (reply: Option<Message>)
    ensures
        match *failure {
            FrameworkFailure::ArgumentParse { input } => reply matches Some(message) && message@
                == misunderstood(input),
            _ => reply is None,
        },
{
    match failure {
        FrameworkFailure::ArgumentParse { input } => {
            let mut content = String::from_str(MISUNDERSTOOD);
            match input {
                Some(input) => {
                    content.append(input.as_str());
                },
                None => {
                    assert(content@ =~= MISUNDERSTOOD@ + Seq::<char>::empty());
                },
            }
            let buttons: Vec<Button> = Vec::new();
            Some(Message { content, ephemeral: true, embed: None, buttons })
        },
        _ => None,
    }
}

} // verus!
