//! The tickets that the timeout service hands back when a wait has expired.

use vstd::prelude::*;
use crate::messages::ClientRqInfo;
use crate::sequencing::SeqNo;

verus! {

/// What was waited for.
#[derive(Clone, Copy, Debug, PartialEq, Eq)]
pub enum TimeoutKind {
    /// The decision on a request of a client.
    ClientRequestTimeout(ClientRqInfo),
    /// The answer to a state transfer request of the given number.
    Cst(SeqNo),
    /// The answer to a log transfer request of the given number.
    LogTransfer(SeqNo),
}

/// A wait that has expired.
#[derive(Clone, Copy, Debug, PartialEq, Eq)]
pub struct RqTimeout {
    pub timeout_kind: TimeoutKind,
}

} // verus!
