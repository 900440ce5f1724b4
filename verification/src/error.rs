//! The one error type of an activation: every failure ends it, and is
//! reported as a kind and a message.

use vstd::prelude::*;

verus! {

/// Where a failure comes from.
#[derive(Clone, Copy, Debug, PartialEq, Eq, Structural)]
pub enum ErrorKind {
    /// The configuration asks for what cannot be done.
    Config,
    /// The host is not supported, or does not say what it is.
    Platform,
    /// The marker file cannot be read or written.
    Io,
    /// The server's URI cannot be built.
    Uri,
}

/// A failure that ends the activation. The message is what the user is
/// shown: the cause as the failing step gave it.
#[derive(Debug, PartialEq, Eq)]
pub struct InitError {
    pub kind: ErrorKind,
    pub message: String,
}

/// A failure, as a mathematical value.
pub struct InitErrorView {
    pub kind: ErrorKind,
    pub message: Seq<char>,
}

impl View for InitError {
    type V = InitErrorView;

    open spec fn view(&self) -> InitErrorView {
        InitErrorView { kind: self.kind, message: self.message@ }
    }
}

} // verus!
