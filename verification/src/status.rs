//! Decoded inbound status replies.
//!
//! A reply is either terminal (the downstream process finished, well or
//! badly) or a progress update. Only the terminal ones may resolve a waiting
//! request handler; the listener forwards every decoded reply regardless.

use vstd::prelude::*;

verus! {

/// The status carried by an inbound reply record: finished well (`Okay`),
/// finished badly (`Feilet`), received (`Mottatt`), or handed on to the
/// downstream settlement system (`HosOppdrag`).
#[derive(Clone, Copy, Debug, PartialEq, Eq, Structural)]
pub enum Status {
    Okay,
    Feilet,
    Mottatt,
    HosOppdrag,
}

impl Status {
    /// Whether this status ends the downstream processing: only `Okay`
    /// and `Feilet` do; `Mottatt` and `HosOppdrag` are progress updates.
    pub open spec fn spec_is_terminal(self) -> bool {
        self == Status::Okay || self == Status::Feilet
    }

    /// Returns whether the status is terminal.
    pub fn is_terminal(&self) -> (r: bool)
        ensures
            r == self.spec_is_terminal(),
    {
        match self {
            Status::Okay => true,
            Status::Feilet => true,
            Status::Mottatt => false,
            Status::HosOppdrag => false,
        }
    }
}

/// The structured error embedded in a failed reply: the downstream status
/// code, a message, and a documentation link.
#[derive(Clone, Debug)]
pub struct Error {
    pub status_code: u16,
    pub msg: String,
    pub doc: String,
}

/// The mathematical value of an [`Error`].
pub struct ErrorView {
    pub status_code: u16,
    pub msg: Seq<char>,
    pub doc: Seq<char>,
}

impl View for Error {
    type V = ErrorView;

    open spec fn view(&self) -> ErrorView {
        ErrorView { status_code: self.status_code, msg: self.msg@, doc: self.doc@ }
    }
}

impl Error {
    /// Builds an error from its parts.
    pub fn new(status_code: u16, msg: String, doc: String) -> (r: Error)
        ensures
            r@.status_code == status_code,
            r@.msg == msg@,
            r@.doc == doc@,
    {
        Error { status_code, msg, doc }
    }
}

/// A decoded inbound status reply: a status tag plus, for failures, the
/// structured error the downstream system attached.
#[derive(Clone, Debug)]
pub struct Reply {
    pub status: Status,
    pub error: Option<Error>,
}

/// The mathematical value of a [`Reply`].
pub struct ReplyView {
    pub status: Status,
    pub error: Option<ErrorView>,
}

impl View for Reply {
    type V = ReplyView;

    open spec fn view(&self) -> ReplyView {
        ReplyView {
            status: self.status,
            error: match self.error {
                Some(e) => Some(e@),
                None => None,
            },
        }
    }
}

impl Reply {
    /// Builds a reply from its parts.
    pub fn new(status: Status, error: Option<Error>) -> (r: Reply)
        ensures
            r.status == status,
            r.error == error,
    {
        Reply { status, error }
    }
}

} // verus!
