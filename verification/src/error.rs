//! The error type that the layer hands to the replica.

use vstd::prelude::*;

verus! {

/// The kinds of failure that the layer reports.
#[derive(Clone, Copy, Debug, PartialEq, Eq, Hash, Structural)]
pub enum ErrorKind {
    /// Misuse of the decision model, such as merging decisions of different
    /// sequence numbers.
    OrderProtocolDecision,
    /// A signature or a proof did not check out.
    Verification,
    /// A write to the persistent log failed.
    Persistence,
    /// Sending or receiving failed.
    Transport,
    /// A peer violated the protocol. The offending message is ignored.
    Protocol,
    /// Configuration, resource exhaustion or a broken local invariant.
    Fatal,
}

/// A failure: its kind, and a message for whoever reads the log.
#[derive(Clone, Debug, PartialEq, Eq)]
pub struct Error {
    kind: ErrorKind,
    message: String,
}

/// What a failure says: its kind and the text of its message.
pub struct ErrorView {
    pub kind: ErrorKind,
    pub message: Seq<char>,
}

impl View for Error {
    type V = ErrorView;

    closed spec fn view(&self) -> ErrorView {
        ErrorView { kind: self.kind, message: self.message@ }
    }
}

impl Error {
    /// The kind of this failure.
    pub open spec fn spec_kind(&self) -> ErrorKind {
        self@.kind
    }

    /// The text of the message of this failure.
    pub open spec fn spec_message(&self) -> Seq<char> {
        self@.message
    }

    /// A failure of the given kind with an empty message.
    pub fn simple(kind: ErrorKind) -> (e: Error)
        ensures
            e@ == (ErrorView { kind, message: Seq::<char>::empty() }),
    {
        Error { kind, message: String::new() }
    }

    /// A failure of the given kind with the given message.
    pub fn simple_with_msg(kind: ErrorKind, msg: &str) -> (e: Error)
        ensures
            e@ == (ErrorView { kind, message: msg@ }),
    {
        Error { kind, message: msg.to_owned() }
    }

    /// The kind of this failure.
    #[verifier::when_used_as_spec(spec_kind)]
    pub fn kind(&self) -> (k: ErrorKind)
        ensures
            k == self.spec_kind(),
    {
        self.kind
    }

    /// The message of this failure.
    pub fn message(&self) -> (m: &str)
        ensures
            m@ == self.spec_message(),
    {
        self.message.as_str()
    }
}

/// Whether a result is the one that a verdict calls for: the same value on
/// success, a failure of the same kind with the same message on failure.
pub open spec fn answers<T>(res: Result<T, Error>, verdict: Result<T, ErrorView>) -> bool {
    match res {
        Ok(v) => verdict == Ok::<T, ErrorView>(v),
        Err(e) => verdict == Err::<T, ErrorView>(e@),
    }
}

} // verus!
