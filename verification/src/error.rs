//! The errors that a fetch can end in.

use vstd::prelude::*;

verus! {

/// Why a fetch failed. Each variant carries the message to display.
#[derive(Debug, PartialEq, Eq)]
pub enum DealveError {
    /// A required credential is missing.
    Config(String),
    /// The request did not reach the server, or its answer did not arrive.
    Network(String),
    /// The server answered with a status other than success.
    Api(String),
    /// The body of the answer is not what was expected.
    Parse(String),
}

/// The four kinds of failure.
#[derive(Clone, Copy, Debug, PartialEq, Eq, Structural)]
pub enum ErrorKind {
    Config,
    Network,
    Api,
    Parse,
}

/// An error as a mathematical value: its kind and the text of its message.
pub struct ErrorView {
    pub kind: ErrorKind,
    pub message: Seq<char>,
}

impl View for DealveError {
    type V = ErrorView;

    open spec fn view(&self) -> ErrorView {
        match *self {
            DealveError::Config(message) => ErrorView { kind: ErrorKind::Config, message: message@ },
            DealveError::Network(message) => ErrorView { kind: ErrorKind::Network, message: message@ },
            DealveError::Api(message) => ErrorView { kind: ErrorKind::Api, message: message@ },
            DealveError::Parse(message) => ErrorView { kind: ErrorKind::Parse, message: message@ },
        }
    }
}

impl DealveError {
    /// Which kind of failure this is.
    pub fn kind(&self) -> (kind: ErrorKind)
        ensures
            kind == self@.kind,
    {
        match self {
            DealveError::Config(_) => ErrorKind::Config,
            DealveError::Network(_) => ErrorKind::Network,
            DealveError::Api(_) => ErrorKind::Api,
            DealveError::Parse(_) => ErrorKind::Parse,
        }
    }

    /// The message to display.
    pub fn message(&self) -> (message: &str)
        ensures
            message@ == self@.message,
    {
        match self {
            DealveError::Config(message) => message.as_str(),
            DealveError::Network(message) => message.as_str(),
            DealveError::Api(message) => message.as_str(),
            DealveError::Parse(message) => message.as_str(),
        }
    }
}

} // verus!
