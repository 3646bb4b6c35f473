//! The messages that flow between the nodes of the system, and the envelope
//! that carries each of them on the wire.

use vstd::prelude::*;
use vstd::laws_eq::obeys_concrete_eq;
use std::sync::Arc;
use crate::error::Error;
use crate::sequencing::{NodeId, SeqNo};

verus! {

/// The types of the requests that clients make of the replicated application
/// and of the replies that it gives.
pub trait ApplicationData {
    /// A request of a client.
    type Request;

    /// The reply to a request.
    type Reply;
}

/// One operation that the application is to execute, with the client, the
/// session and the number that it was requested under.
#[derive(Clone, Debug, PartialEq, Eq)]
pub struct Update<O> {
    pub from: NodeId,
    pub session_id: SeqNo,
    pub operation_id: SeqNo,
    pub operation: O,
}

/// The operations of one decision, in the order in which the application is to
/// execute them.
#[derive(Clone, Debug, PartialEq, Eq)]
pub struct UpdateBatch<O> {
    pub inner: Vec<Update<O>>,
}

impl<O> UpdateBatch<O> {
    /// A batch without operations.
    pub fn new() -> (batch: Self)
        ensures
            batch.inner@ == Seq::<Update<O>>::empty(),
    {
        UpdateBatch { inner: Vec::new() }
    }

    /// Adds an operation at the end of the batch.
    pub fn add(&mut self, from: NodeId, session_id: SeqNo, operation_id: SeqNo, operation: O)
        ensures
            final(self).inner@ == old(self).inner@.push(
                Update { from, session_id, operation_id, operation },
            ),
    {
        self.inner.push(Update { from, session_id, operation_id, operation });
    }

    /// The number of operations in the batch.
    pub fn len(&self) -> (len: usize)
        ensures
            len == self.inner@.len(),
    {
        self.inner.len()
    }
}

/// A cryptographic digest.
#[derive(Clone, Copy, Debug, PartialEq, Eq, Hash)]
pub struct Digest {
    pub bytes: [u8; 32],
}

/// What the transport puts in front of every message: who sent it to whom, and
/// the digest and signature of the payload that follows.
#[derive(Clone, Copy, Debug, PartialEq, Eq)]
pub struct Header {
    pub version: u32,
    pub from: NodeId,
    pub to: NodeId,
    pub nonce: u64,
    pub length: u64,
    pub digest: Digest,
    pub signature: [u8; 64],
}

/// Whether two arrays of bytes hold the same bytes.
pub(crate) fn same_bytes<const N: usize>(left: &[u8; N], right: &[u8; N]) -> (same: bool)
    ensures
        same == (*left == *right),
{
    broadcast use vstd::array::group_array_axioms;

    let mut at: usize = 0;
    while at < N
        invariant
            at <= N,
            forall|k: int| 0 <= k < at ==> left[k] == right[k],
        decreases N - at,
    {
        if left[at] != right[at] {
            return false;
        }
        at += 1;
    }
    assert(*left =~= *right);
    true
}

impl Header {
    /// Whether this header is the same as another, field by field.
    pub(crate) fn same_as(&self, other: &Header) -> (same: bool)
        ensures
            same == (*self == *other),
    {
        self.version == other.version && self.from == other.from && self.to == other.to
            && self.nonce == other.nonce && self.length == other.length && same_bytes(
            &self.digest.bytes,
            &other.digest.bytes,
        ) && same_bytes(&self.signature, &other.signature)
    }
}

/// A message together with the header that it arrived under.
#[derive(Clone, Debug, PartialEq, Eq)]
pub struct StoredMessage<M> {
    pub header: Header,
    pub message: M,
}

impl<M> StoredMessage<M> {
    /// Puts a header and a message together.
    pub fn new(header: Header, message: M) -> (stored: Self)
        ensures
            stored.header == header,
            stored.message == message,
    {
        StoredMessage { header, message }
    }

    /// The header that the message arrived under.
    pub fn header(&self) -> (header: &Header)
        ensures
            *header == self.header,
    {
        &self.header
    }

    /// The message.
    pub fn message(&self) -> (message: &M)
        ensures
            *message == self.message,
    {
        &self.message
    }
}

impl<M: PartialEq> StoredMessage<M> {
    /// Whether this stored message is the same as another: the same message
    /// under the same header.
    pub(crate) fn same_as(&self, other: &Self) -> (same: bool)
        requires
            obeys_concrete_eq::<M>(),
        ensures
            same == (*self == *other),
    {
        proof {
            reveal(obeys_concrete_eq);
        }
        self.header.same_as(&other.header) && self.message == other.message
    }
}

/// A stored message under shared, read-only ownership: many holders may read
/// it, none may change it.
pub type ShareableMessage<M> = Arc<StoredMessage<M>>;

/// A request of a client, numbered within the client's session.
#[derive(Clone, Debug, PartialEq, Eq)]
pub struct RequestMessage<O> {
    pub session_id: SeqNo,
    pub operation_id: SeqNo,
    pub operation: O,
}

impl<O> RequestMessage<O> {
    /// A request with the given operation, the given number in the given session.
    pub fn new(session_id: SeqNo, operation_id: SeqNo, operation: O) -> (request: Self)
        ensures
            request.session_id == session_id,
            request.operation_id == operation_id,
            request.operation == operation,
    {
        RequestMessage { session_id, operation_id, operation }
    }
}

/// The reply to a request of a client, numbered as the request was.
#[derive(Clone, Debug, PartialEq, Eq)]
pub struct ReplyMessage<P> {
    pub session_id: SeqNo,
    pub operation_id: SeqNo,
    pub payload: P,
}

impl<P> ReplyMessage<P> {
    /// A reply with the given payload to the request of the given number in the
    /// given session.
    pub fn new(session_id: SeqNo, operation_id: SeqNo, payload: P) -> (reply: Self)
        ensures
            reply.session_id == session_id,
            reply.operation_id == operation_id,
            reply.payload == payload,
    {
        ReplyMessage { session_id, operation_id, payload }
    }
}

/// A request of a client as a replica stored it, under the client's header.
pub type StoredRequestMessage<O> = StoredMessage<RequestMessage<O>>;

/// A batch of requests of clients that one replica relays to another, each
/// under the header that its client sent it with.
#[derive(Clone, Debug, PartialEq, Eq)]
pub struct ForwardedRequestsMessage<O> {
    pub inner: Vec<StoredRequestMessage<O>>,
}

impl<O> ForwardedRequestsMessage<O> {
    /// A batch of the given requests.
    pub fn new(requests: Vec<StoredRequestMessage<O>>) -> (batch: Self)
        ensures
            batch.inner == requests,
    {
        ForwardedRequestsMessage { inner: requests }
    }

    /// The requests of the batch, in the order in which they were relayed.
    pub fn requests(&self) -> (requests: &Vec<StoredRequestMessage<O>>)
        ensures
            *requests == self.inner,
    {
        &self.inner
    }
}

/// A message of the ordering protocol that one replica relays to another as
/// evidence, under the header that its author sent it with.
#[derive(Clone, Debug, PartialEq, Eq)]
pub struct ForwardedProtocolMessage<P> {
    pub message: StoredMessage<P>,
}

impl<P> ForwardedProtocolMessage<P> {
    /// A relay of the given stored message.
    pub fn new(message: StoredMessage<P>) -> (forwarded: Self)
        ensures
            forwarded.message == message,
    {
        ForwardedProtocolMessage { message }
    }

    /// The header that the author of the relayed message sent it with.
    pub fn header(&self) -> (header: &Header)
        ensures
            *header == self.message.header,
    {
        &self.message.header
    }

    /// The relayed message with its header.
    pub fn message(&self) -> (message: &StoredMessage<P>)
        ensures
            *message == self.message,
    {
        &self.message
    }
}

/// Everything that travels between the nodes of the system: one variant for
/// each kind of payload.
#[derive(Clone, Debug, PartialEq, Eq)]
pub enum SystemMessage<D: ApplicationData, P, ST, LT> {
    /// A request of a client that is to be ordered.
    OrderedRequest(RequestMessage<D::Request>),
    /// The reply to an ordered request.
    OrderedReply(ReplyMessage<D::Reply>),
    /// A request of a client that needs no ordering.
    UnorderedRequest(RequestMessage<D::Request>),
    /// The reply to an unordered request.
    UnorderedReply(ReplyMessage<D::Reply>),
    /// Requests of clients, relayed by a replica.
    ForwardedRequestMessage(ForwardedRequestsMessage<D::Request>),
    /// A message of the ordering protocol.
    ProtocolMessage(P),
    /// A message of the ordering protocol, relayed by a replica.
    ForwardedProtocolMessage(ForwardedProtocolMessage<P>),
    /// A message of the state transfer protocol.
    StateTransferMessage(ST),
    /// A message of the log transfer protocol.
    LogTransferMessage(LT),
}

impl<D: ApplicationData, P, ST, LT> SystemMessage<D, P, ST, LT> {
    /// The envelope of a message of the ordering protocol.
    pub fn from_protocol_message(msg: P) -> (envelope: Self)
        ensures
            envelope == SystemMessage::<D, P, ST, LT>::ProtocolMessage(msg),
    {
        SystemMessage::ProtocolMessage(msg)
    }

    /// What comes of verifying the signature on an ordered request, given
    /// what the signature verifier made of its envelope: the request that the
    /// verified envelope carries, or the failure of the verifier.
    pub fn verified_request(verified: Result<Self, Error>) -> (request: Result<
        RequestMessage<D::Request>,
        Error,
    >)
        requires
            verified matches Ok(envelope) ==> envelope is OrderedRequest,
        ensures
            request == (match verified {
                Ok(envelope) => Ok::<RequestMessage<D::Request>, Error>(
                    envelope->OrderedRequest_0,
                ),
                Err(error) => Err(error),
            }),
    {
        match verified {
            Ok(SystemMessage::OrderedRequest(request)) => Ok(request),
            Ok(_) => vstd::pervasive::unreached(),
            Err(error) => Err(error),
        }
    }

    /// What comes of verifying the signature on an ordered reply, given what
    /// the signature verifier made of its envelope: the reply that the
    /// verified envelope carries, or the failure of the verifier.
    pub fn verified_reply(verified: Result<Self, Error>) -> (reply: Result<
        ReplyMessage<D::Reply>,
        Error,
    >)
        requires
            verified matches Ok(envelope) ==> envelope is OrderedReply,
        ensures
            reply == (match verified {
                Ok(envelope) => Ok::<ReplyMessage<D::Reply>, Error>(envelope->OrderedReply_0),
                Err(error) => Err(error),
            }),
    {
        match verified {
            Ok(SystemMessage::OrderedReply(reply)) => Ok(reply),
            Ok(_) => vstd::pervasive::unreached(),
            Err(error) => Err(error),
        }
    }

    /// What comes of verifying the signature on a message of the ordering
    /// protocol, given what the signature verifier made of its envelope: the
    /// message that the verified envelope carries, or the failure of the
    /// verifier.
    pub fn verified_protocol_message(verified: Result<Self, Error>) -> (message: Result<P, Error>)
        requires
            verified matches Ok(envelope) ==> envelope is ProtocolMessage,
        ensures
            message == (match verified {
                Ok(envelope) => Ok::<P, Error>(envelope->ProtocolMessage_0),
                Err(error) => Err(error),
            }),
    {
        match verified {
            Ok(SystemMessage::ProtocolMessage(message)) => Ok(message),
            Ok(_) => vstd::pervasive::unreached(),
            Err(error) => Err(error),
        }
    }
}

/// What identifies a request of a client without carrying its operation.
#[derive(Clone, Copy, Debug, PartialEq, Eq, Hash)]
pub struct ClientRqInfo {
    pub digest: Digest,
    pub sender: NodeId,
    pub seq_no: SeqNo,
    pub session: SeqNo,
}

impl ClientRqInfo {
    /// The description of the request with the given digest that the given
    /// client sent under the given number in the given session.
    pub fn new(digest: Digest, sender: NodeId, seq_no: SeqNo, session: SeqNo) -> (info: Self)
        ensures
            info.digest == digest,
            info.sender == sender,
            info.seq_no == seq_no,
            info.session == session,
    {
        ClientRqInfo { digest, sender, seq_no, session }
    }
}

} // verus!
