//! What an ordering protocol tells the framework about its messages, and how
//! the framework has them verified.

use vstd::prelude::*;
use std::sync::Arc;
use crate::error::{answers, Error, ErrorView};
use crate::messages::{ApplicationData, Header, ReplyMessage, RequestMessage};
use crate::sequencing::{NodeId, Orderable};

verus! {

/// The types of the messages of an ordering protocol.
pub trait OrderingProtocolMessage<D: ApplicationData>: Sized {
    /// What the replicas send each other to reach decisions.
    type ProtocolMessage;

    /// The part of a protocol message that is kept in the log.
    type LoggableMessage;

    /// The proof that a decision was reached.
    type Proof: OrderProtocolProof;

    /// What describes a decision before its proof is complete.
    type ProofMetadata;
}

/// What every proof of a decision offers.
pub trait OrderProtocolProof {

}

impl OrderProtocolProof for () {

}

/// Verifies the pieces that a message of an ordering protocol may carry inside
/// it, in the same way in which the envelope of the message is verified.
pub trait OrderProtocolSignatureVerificationHelper<D, OP, NI> where
    D: ApplicationData,
    OP: OrderingProtocolMessage<D>,
 {
    /// Verifies a request of a client under the header that it arrived with.
    fn verify_request_message(
        network_info: &Arc<NI>,
        header: &Header,
        request: RequestMessage<D::Request>,
    ) -> Result<RequestMessage<D::Request>, Error>;

    /// Verifies a reply under the header that it arrived with.
    fn verify_reply_message(
        network_info: &Arc<NI>,
        header: &Header,
        reply: ReplyMessage<D::Reply>,
    ) -> Result<ReplyMessage<D::Reply>, Error>;

    /// Verifies a protocol message under the header that it arrived with,
    /// such as one that another replica relayed.
    fn verify_protocol_message(
        network_info: &Arc<NI>,
        header: &Header,
        message: OP::ProtocolMessage,
    ) -> Result<OP::ProtocolMessage, Error>;
}

/// How the messages and the proofs of an ordering protocol are verified, given
/// what is known of the network and a helper for the pieces inside them.
///
/// Verification is a function of its arguments: what it returns for a header
/// and a message is named by a specification function, so that the same
/// arguments give the same verdict. What is known of the network is one of
/// the arguments: an implementation whose verdict depends on keys that change
/// while the value that describes the network stays the same cannot meet this
/// contract, and has to hand the keys in as part of that value.
pub trait OrderProtocolVerifier<D, NI, OPVH>: OrderingProtocolMessage<D> where
    D: ApplicationData,
    OPVH: OrderProtocolSignatureVerificationHelper<D, Self, NI>,
 {
    /// What verifying a protocol message under a header gives: whether it is
    /// valid, with the message as it is to be used from then on, or the
    /// failure of the verification itself.
    spec fn protocol_message_verdict(
        network_info: &Arc<NI>,
        header: &Header,
        message: &Self::ProtocolMessage,
    ) -> Result<(bool, Self::ProtocolMessage), ErrorView>;

    /// Verifies a protocol message under the header that it arrived with.
    fn verify_order_protocol_message(
        network_info: &Arc<NI>,
        header: &Header,
        message: &Self::ProtocolMessage,
    ) -> (res: Result<(bool, Self::ProtocolMessage), Error>)
        ensures
            answers(res, Self::protocol_message_verdict(network_info, header, message)),
    ;

    /// Verifying the message that a verification handed back gives the same
    /// verdict and hands the same message back.
    proof fn lemma_protocol_message_verdict_settles(
        network_info: &Arc<NI>,
        header: &Header,
        message: &Self::ProtocolMessage,
    )
        ensures
            Self::protocol_message_verdict(network_info, header, message) matches Ok(verdict)
                ==> Self::protocol_message_verdict(network_info, header, &verdict.1) == Ok::<
                (bool, Self::ProtocolMessage),
                ErrorView,
            >(verdict),
    ;

    /// What verifying a proof gives: whether it is valid, with the proof as it
    /// is to be used from then on, or the kind of the failure of the
    /// verification itself.
    spec fn proof_verdict(network_info: &Arc<NI>, proof: Self::Proof) -> Result<
        (bool, Self::Proof),
        ErrorView,
    >;

    /// Verifies the proof of a decision.
    fn verify_proof(network_info: &Arc<NI>, proof: Self::Proof) -> (res: Result<
        (bool, Self::Proof),
        Error,
    >)
        ensures
            answers(res, Self::proof_verdict(network_info, proof)),
    ;
}

/// A snapshot of who takes part in a permissioned ordering protocol. Nothing
/// in it changes: what it offers is read from it, and a new view takes its
/// place when the quorum changes.
pub trait NetworkView: Orderable {
    /// The node that leads the quorum.
    spec fn spec_primary(&self) -> NodeId;

    /// The number of members whose agreement makes a decision.
    spec fn spec_quorum(&self) -> nat;

    /// The members of the quorum, in their order.
    spec fn spec_quorum_members(&self) -> Seq<NodeId>;

    /// The number of faulty members that the quorum withstands.
    spec fn spec_f(&self) -> nat;

    /// The node that leads the quorum. It is one of its members.
    fn primary(&self) -> (primary: NodeId)
        ensures
            primary == self.spec_primary(),
            self.spec_quorum_members().contains(primary),
    ;

    /// The number of members whose agreement makes a decision.
    fn quorum(&self) -> (quorum: usize)
        ensures
            quorum == self.spec_quorum(),
    ;

    /// The members of the quorum, in their order.
    fn quorum_members(&self) -> (members: &Vec<NodeId>)
        ensures
            members@ == self.spec_quorum_members(),
    ;

    /// The number of faulty members that the quorum withstands.
    fn f(&self) -> (f: usize)
        ensures
            f == self.spec_f(),
    ;

    /// The number of members of the quorum.
    fn n(&self) -> (n: usize)
        ensures
            n == self.spec_quorum_members().len(),
    ;
}

/// Whether a view has the members that it takes to withstand its faults where
/// they are Byzantine: more than three times as many members as may be
/// faulty.
pub open spec fn withstands_byzantine_faults<V: NetworkView>(view: &V) -> bool {
    view.spec_quorum_members().len() >= 3 * view.spec_f() + 1
}

/// The types of an ordering protocol in which only the members of a quorum
/// take part.
pub trait PermissionedOrderingProtocolMessage {
    /// The snapshot of the quorum.
    type ViewInfo: NetworkView;
}

} // verus!
