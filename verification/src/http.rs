//! A call of a server: how it goes, and what the library reads from the status of the response.

use vstd::prelude::*;

use crate::json::Json;

verus! {

/// The codes that a response can have.
pub open spec fn is_status(code: u16) -> bool {
    100 <= code < 1000
}

/// The server did what it was asked to do.
pub open spec fn success(code: u16) -> bool {
    200 <= code < 300
}

/// The code by which the servers refuse a token.
pub const FORBIDDEN: u16 = 403;

pub(crate) fn is_success(code: u16) -> (r: bool)
    ensures
        r == success(code),
{
    200 <= code && code < 300
}

/// Where a call of a server stands.
#[derive(Debug, Clone, Copy, PartialEq, Eq, Structural)]
pub enum CallStage {
    /// The request is on its way.
    Sent,
    /// The server answered with an error, whose text is being read.
    ReadingError(u16),
    /// The server answered, and its document is being read.
    ReadingReply,
}

/// What happens to a call of a server.
#[derive(Debug, PartialEq, Eq)]
pub enum CallEvent {
    /// No client could be made.
    NoClient(String),
    /// The request could not be sent.
    NotSent(String),
    /// The server answered with this status.
    Status(u16),
    /// The text of the answer.
    Body(String),
    /// The document of the answer.
    Reply(Json),
    /// The answer is no document.
    BadReply(String),
}

impl CallStage {
    /// The events that can come at this stage.
    pub open spec fn fits(self, event: CallEvent) -> bool {
        match event {
            CallEvent::NoClient(_) | CallEvent::NotSent(_) => self == CallStage::Sent,
            CallEvent::Status(code) => self == CallStage::Sent && is_status(code),
            CallEvent::Body(_) => self matches CallStage::ReadingError(code) && is_status(code),
            CallEvent::Reply(_) | CallEvent::BadReply(_) => self == CallStage::ReadingReply,
        }
    }
}

/// How `reqwest` displays a status code: the code and its standard reason.
pub uninterp spec fn status_text(code: u16) -> Seq<char>;

/// Displays the `reqwest::StatusCode` with the given code, which exists for every code from 100
/// to 999.
#[verifier::external_body]
pub(crate) fn status_display(code: u16) -> (r: String)
    requires
        is_status(code),
    ensures
        r@ == status_text(code),
{
    match reqwest::StatusCode::from_u16(code) {
        Ok(status) => status.to_string(),
        Err(error) => error.to_string(),
    }
}

} // verus!
