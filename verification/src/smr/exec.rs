//! Replies to clients: which envelope carries a reply, and what a node that
//! sends replies offers.

use vstd::prelude::*;
use crate::error::Error;
use crate::messages::{ApplicationData, ReplyMessage, SystemMessage};
use crate::sequencing::NodeId;

verus! {

/// Whether a reply answers a request that was ordered or one that was not.
#[derive(Clone, Copy, Debug, PartialEq, Eq, Structural)]
pub enum ReplyType {
    Ordered,
    Unordered,
}

impl ReplyType {
    /// The envelope that carries a reply of this type: an ordered reply for
    /// an ordered request, an unordered reply for an unordered one.
    pub fn envelope<D: ApplicationData, P, ST, LT>(self, reply: ReplyMessage<D::Reply>) -> (message:
        SystemMessage<D, P, ST, LT>)
        ensures
            message == (match self {
                ReplyType::Ordered => SystemMessage::<D, P, ST, LT>::OrderedReply(reply),
                ReplyType::Unordered => SystemMessage::<D, P, ST, LT>::UnorderedReply(reply),
            }),
    {
        match self {
            ReplyType::Ordered => SystemMessage::OrderedReply(reply),
            ReplyType::Unordered => SystemMessage::UnorderedReply(reply),
        }
    }
}

/// A node of the network that can send replies to clients.
pub trait ReplyNode<D>: Send + Sync where D: ApplicationData {
    /// Sends a reply to one node.
    fn send(
        &self,
        reply_type: ReplyType,
        reply: ReplyMessage<D::Reply>,
        target: NodeId,
        flush: bool,
    ) -> Result<(), Error>;

    /// Signs a reply and sends it to one node.
    fn send_signed(
        &self,
        reply_type: ReplyType,
        reply: ReplyMessage<D::Reply>,
        target: NodeId,
        flush: bool,
    ) -> Result<(), Error>;

    /// Sends a reply to several nodes. Where it fails, it names the nodes
    /// that the reply did not reach.
    fn broadcast(
        &self,
        reply_type: ReplyType,
        reply: ReplyMessage<D::Reply>,
        targets: impl Iterator<Item = NodeId>,
    ) -> Result<(), Vec<NodeId>>;

    /// Signs a reply and sends it to several nodes. Where it fails, it names
    /// the nodes that the reply did not reach.
    fn broadcast_signed(
        &self,
        reply_type: ReplyType,
        reply: ReplyMessage<D::Reply>,
        targets: impl Iterator<Item = NodeId>,
    ) -> Result<(), Vec<NodeId>>;
}

} // verus!
