//! Sequence numbers, node identifiers, and what it means to carry a sequence
//! number.

use vstd::prelude::*;
use vstd::std_specs::convert::FromSpecImpl;

verus! {

/// The position of a decision in the total order that the replicas agree on.
#[derive(Clone, Copy, Debug, PartialEq, Eq, PartialOrd, Ord, Hash, Structural)]
pub struct SeqNo(u32);

impl View for SeqNo {
    type V = nat;

    closed spec fn view(&self) -> nat {
        self.0 as nat
    }
}

impl SeqNo {
    /// The number behind this sequence number.
    pub fn into_u32(self) -> (value: u32)
        ensures
            value == self@,
    {
        self.0
    }

    /// Whether this sequence number comes strictly after another.
    pub fn is_after(&self, other: &SeqNo) -> (after: bool)
        ensures
            after == (self@ > other@),
    {
        self.0 > other.0
    }
}

impl From<u32> for SeqNo {
    fn from(value: u32) -> (seq: SeqNo)
        ensures
            seq@ == value,
    {
        SeqNo(value)
    }
}

impl FromSpecImpl<u32> for SeqNo {
    open spec fn obeys_from_spec() -> bool {
        true
    }

    closed spec fn from_spec(value: u32) -> SeqNo {
        SeqNo(value)
    }
}

/// The identifier of a replica or of a client.
#[derive(Clone, Copy, Debug, PartialEq, Eq, PartialOrd, Ord, Hash, Structural)]
pub struct NodeId(pub u32);

impl From<u32> for NodeId {
    fn from(value: u32) -> (id: NodeId) {
        NodeId(value)
    }
}

impl FromSpecImpl<u32> for NodeId {
    open spec fn obeys_from_spec() -> bool {
        true
    }

    open spec fn from_spec(value: u32) -> NodeId {
        NodeId(value)
    }
}

/// What carries a sequence number.
pub trait Orderable {
    /// The sequence number that the value carries.
    spec fn spec_sequence_number(&self) -> SeqNo;

    /// The sequence number that the value carries.
    fn sequence_number(&self) -> (seq: SeqNo)
        ensures
            seq == self.spec_sequence_number(),
    ;
}

} // verus!
