//! The failure of a connection: what kind it is and what it says.
use vstd::prelude::*;

verus! {

/// The kinds of failure that a connection reports.
#[derive(Debug, Clone, Copy, PartialEq, Eq, Structural)]
pub enum ErrorKind {
    BrokenPipe,
    ConnectionRefused,
    InvalidData,
    InvalidInput,
    TimedOut,
    UnexpectedEof,
    Unsupported,
    Other,
}

/// A failure of the transport, of the peer, or of the terminal behind it.
#[derive(Debug, Clone, PartialEq, Eq)]
pub struct ConnectionError {
    pub kind: ErrorKind,
    pub message: String,
}

/// A failure, as contracts speak of it.
pub ghost struct Failure {
    pub kind: ErrorKind,
    pub message: Seq<char>,
}

impl View for ConnectionError {
    type V = Failure;

    open spec fn view(&self) -> Failure {
        Failure { kind: self.kind, message: self.message@ }
    }
}

/// The failure of a kind with a message.
pub open spec fn failure(kind: ErrorKind, message: Seq<char>) -> Failure {
    Failure { kind, message }
}

impl ConnectionError {
    pub fn new(kind: ErrorKind, message: String) -> (error: Self)
        ensures
            error@ == failure(kind, message@),
            error.message == message,
    {
        ConnectionError { kind, message }
    }
}

} // verus!
