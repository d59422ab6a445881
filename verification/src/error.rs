//! The ways in which a fetch, a conversion or a login can fail.

use crate::calendar::DateError;
use crate::text::push_text;
use vstd::prelude::*;

verus! {

/// Why a run for one provider and one month ended without a document.
#[derive(Debug, Clone, PartialEq, Eq)]
pub enum Error {
    /// The network or the server failed. The text says how.
    Transport(String),
    /// A response did not have the expected shape. `reason` says what was
    /// wrong, `body` is the response as it came.
    Parse { reason: String, body: String },
    /// There is nothing to convert.
    EmptyStatement,
    /// The second step of a login was asked for before the first.
    AuthNotStarted,
    /// A statement was asked for before the login was finished.
    NotAuthenticated,
    /// The month that was asked for has no first or no last day.
    Calendar(DateError),
}

/// What `Error::message` says.
pub open spec fn message_text(error: Error) -> Seq<char> {
    match error {
        Error::Transport(text) => text@,
        Error::Parse { reason, body } => "Failed to parse response: "@ + reason@ + ".\nResponse: "@
            + body@,
        Error::EmptyStatement => "No statement to convert"@,
        Error::AuthNotStarted => "auth not started. Call initiate_auth first"@,
        Error::NotAuthenticated => "Not authenticated"@,
        Error::Calendar(DateError::YearOutOfRange) => "Failed to get current month"@,
        Error::Calendar(DateError::NoNextMonth) => "Failed to add a month to current month"@,
    }
}

impl Error {
    /// The error in words, for the user.
    pub fn message(&self) -> (text: String)
        ensures
            text@ == message_text(*self),
    {
        let mut out = String::new();
        match self {
            Error::Transport(text) => {
                push_text(&mut out, text.as_str());
            },
            Error::Parse { reason, body } => {
                push_text(&mut out, "Failed to parse response: ");
                push_text(&mut out, reason.as_str());
                push_text(&mut out, ".\nResponse: ");
                push_text(&mut out, body.as_str());
            },
            Error::EmptyStatement => {
                push_text(&mut out, "No statement to convert");
            },
            Error::AuthNotStarted => {
                push_text(&mut out, "auth not started. Call initiate_auth first");
            },
            Error::NotAuthenticated => {
                push_text(&mut out, "Not authenticated");
            },
            Error::Calendar(DateError::YearOutOfRange) => {
                push_text(&mut out, "Failed to get current month");
            },
            Error::Calendar(DateError::NoNextMonth) => {
                push_text(&mut out, "Failed to add a month to current month");
            },
        }
        assert(out@ =~= message_text(*self));
        out
    }
}

} // verus!
