//! The service that a replica speaks: the four capabilities that make it up,
//! its envelope, and the dispatch of an envelope to the verifier of its
//! variant.

use vstd::prelude::*;
use std::marker::PhantomData;
use std::sync::Arc;
use crate::error::{answers, Error, ErrorView};
use crate::log_transfer::networking::{
    LogTransferMessage,
    LogTransferVerificationHelper,
    LogTransferVerifier,
};
use crate::messages::{
    ApplicationData,
    ForwardedProtocolMessage,
    Header,
    ReplyMessage,
    RequestMessage,
    StoredMessage,
    StoredRequestMessage,
    SystemMessage,
};
use crate::ordering_protocol::networking::{
    OrderProtocolSignatureVerificationHelper,
    OrderProtocolVerifier,
    OrderingProtocolMessage,
};
use crate::state_transfer::networking::{
    StateTransferMessage,
    StateTransferVerificationHelper,
    StateTransferVerifier,
};

verus! {

/// A service: an application, an ordering protocol, a state transfer protocol
/// and a log transfer protocol. It stands for the envelope that the four
/// together put on the wire.
pub struct Service<D, P, S, L>(PhantomData<(D, P, S, L)>) where
    D: ApplicationData,
    P: OrderingProtocolMessage<D>,
    S: StateTransferMessage,
    L: LogTransferMessage<D, P>,
;

/// The envelope of a service.
pub type ServiceMessage<D, P, S, L> = SystemMessage<
    D,
    <P as OrderingProtocolMessage<D>>::ProtocolMessage,
    <S as StateTransferMessage>::StateTransferMessage,
    <L as LogTransferMessage<D, P>>::LogTransferMessage,
>;

/// The service as a client sees it: requests and replies, and no protocol.
pub type ClientServiceMsg<D> = Service<D, NoProtocol, NoProtocol, NoProtocol>;

/// The envelope of the service as a client sees it.
pub type ClientMessage<D> = ServiceMessage<D, NoProtocol, NoProtocol, NoProtocol>;

/// Turns a request or a reply of a client into a wider message, so that
/// clients and replicas verify one form of it.
pub trait VerificationWrapper<M, D> where D: ApplicationData {
    /// The wider message of a request of a client.
    fn wrap_request(header: Header, request: RequestMessage<D::Request>) -> M;

    /// The wider message of a reply.
    fn wrap_reply(header: Header, reply: D::Reply) -> M;
}

/// Whether a verified payload was found valid: the verdict of a verifier
/// without the payload that it hands back.
pub open spec fn validity<M>(verdict: Result<(bool, M), ErrorView>) -> Result<bool, ErrorView> {
    match verdict {
        Ok((valid, _)) => Ok(valid),
        Err(failure) => Err(failure),
    }
}

/// The conjunction of two verdicts, the first failure taking the place of
/// both.
pub open spec fn both(first: Result<bool, ErrorView>, second: Result<bool, ErrorView>) -> Result<
    bool,
    ErrorView,
> {
    match first {
        Ok(valid) => match second {
            Ok(also) => Ok(valid && also),
            Err(failure) => Err(failure),
        },
        Err(failure) => Err(failure),
    }
}

impl<D, P, S, L> Service<D, P, S, L> where
    D: ApplicationData,
    P: OrderingProtocolMessage<D>,
    S: StateTransferMessage,
    L: LogTransferMessage<D, P>,
 {
    /// What verifying an envelope under a header gives, by the variant of the
    /// envelope:
    /// a message of one of the three protocols goes to the verifier of its
    /// protocol, under the header of the envelope;
    /// requests and replies of clients are trusted here, their signatures
    /// having been checked by the transport;
    /// a relayed protocol message goes to the verifier of the ordering
    /// protocol under the header that it was stored with, whatever the header
    /// of the envelope;
    /// relayed requests are each verified as an ordered request under the
    /// header that it was stored with, and all of them must be valid.
    pub open spec fn message_verdict<NI, VH>(
        network_info: &Arc<NI>,
        header: &Header,
        msg: &ServiceMessage<D, P, S, L>,
    ) -> Result<bool, ErrorView> where
        VH: LogTransferVerificationHelper<D, P, NI> + StateTransferVerificationHelper,
        P: OrderProtocolVerifier<D, NI, VH>,
        S: StateTransferVerifier<NI, VH>,
        L: LogTransferVerifier<D, P, NI, VH>,

        decreases
            (if msg is ForwardedRequestMessage {
                2nat
            } else {
                0nat
            }),
            0nat,
    {
        match msg {
            SystemMessage::ProtocolMessage(protocol) => validity(
                P::protocol_message_verdict(network_info, header, protocol),
            ),
            SystemMessage::LogTransferMessage(log_transfer) => validity(
                L::log_message_verdict(network_info, header, log_transfer),
            ),
            SystemMessage::StateTransferMessage(state_transfer) => validity(
                S::state_message_verdict(network_info, header, state_transfer),
            ),
            SystemMessage::OrderedRequest(_) => Ok(true),
            SystemMessage::OrderedReply(_) => Ok(true),
            SystemMessage::UnorderedReply(_) => Ok(true),
            SystemMessage::UnorderedRequest(_) => Ok(true),
            SystemMessage::ForwardedProtocolMessage(fwd_protocol) => validity(
                P::protocol_message_verdict(
                    network_info,
                    &fwd_protocol.message.header,
                    &fwd_protocol.message.message,
                ),
            ),
            SystemMessage::ForwardedRequestMessage(fwd_requests) => Self::requests_verdict::<
                NI,
                VH,
            >(network_info, fwd_requests.inner@),
        }
    }

    /// What verifying relayed requests gives: each request is verified as an
    /// ordered request under the header that it was stored with, in order, and
    /// the verdicts are conjoined.
    pub open spec fn requests_verdict<NI, VH>(
        network_info: &Arc<NI>,
        requests: Seq<StoredRequestMessage<D::Request>>,
    ) -> Result<bool, ErrorView> where
        VH: LogTransferVerificationHelper<D, P, NI> + StateTransferVerificationHelper,
        P: OrderProtocolVerifier<D, NI, VH>,
        S: StateTransferVerifier<NI, VH>,
        L: LogTransferVerifier<D, P, NI, VH>,

        decreases 1nat, requests.len(),
    {
        if requests.len() == 0 {
            Ok(true)
        } else {
            both(
                Self::requests_verdict::<NI, VH>(network_info, requests.drop_last()),
                Self::message_verdict::<NI, VH>(
                    network_info,
                    &requests.last().header,
                    &SystemMessage::OrderedRequest(requests.last().message),
                ),
            )
        }
    }

    /// Verifies an envelope under the header that it arrived with, by
    /// handing it to the verifier of its variant.
    pub fn verify_message_internal<NI, VH>(
        info_provider: &Arc<NI>,
        header: &Header,
        msg: &ServiceMessage<D, P, S, L>,
    ) -> (res: Result<bool, Error>) where
        VH: LogTransferVerificationHelper<D, P, NI> + StateTransferVerificationHelper,
        P: OrderProtocolVerifier<D, NI, VH>,
        S: StateTransferVerifier<NI, VH>,
        L: LogTransferVerifier<D, P, NI, VH>,
        D::Request: Clone,

        ensures
            answers(res, Self::message_verdict::<NI, VH>(info_provider, header, msg)),
        decreases
            (if msg is ForwardedRequestMessage {
                1nat
            } else {
                0nat
            }),
    {
        match msg {
            SystemMessage::ProtocolMessage(protocol) => {
                match P::verify_order_protocol_message(info_provider, header, protocol) {
                    Ok((result, _message)) => Ok(result),
                    Err(error) => Err(error),
                }
            },
            SystemMessage::LogTransferMessage(log_transfer) => {
                match L::verify_log_message(info_provider, header, log_transfer) {
                    Ok((result, _message)) => Ok(result),
                    Err(error) => Err(error),
                }
            },
            SystemMessage::StateTransferMessage(state_transfer) => {
                match S::verify_state_message(info_provider, header, state_transfer) {
                    Ok((result, _message)) => Ok(result),
                    Err(error) => Err(error),
                }
            },
            SystemMessage::OrderedRequest(_) => Ok(true),
            SystemMessage::OrderedReply(_) => Ok(true),
            SystemMessage::UnorderedReply(_) => Ok(true),
            SystemMessage::UnorderedRequest(_) => Ok(true),
            SystemMessage::ForwardedProtocolMessage(fwd_protocol) => {
                let message = fwd_protocol.message();
                match P::verify_order_protocol_message(
                    info_provider,
                    message.header(),
                    message.message(),
                ) {
                    Ok((result, _message)) => Ok(result),
                    Err(error) => Err(error),
                }
            },
            SystemMessage::ForwardedRequestMessage(fwd_requests) => {
                let requests = fwd_requests.requests();
                let mut result = true;
                let mut at: usize = 0;
                while at < requests.len()
                    invariant
                        msg is ForwardedRequestMessage,
                        at <= requests.len(),
                        Self::requests_verdict::<NI, VH>(
                            info_provider,
                            requests@.take(at as int),
                        ) == Ok::<bool, ErrorView>(result),
                    decreases requests.len() - at,
                {
                    let stored_rq = &requests[at];
                    let header = stored_rq.header();
                    let message = stored_rq.message();
                    let message: ServiceMessage<D, P, S, L> = SystemMessage::OrderedRequest(
                        message.clone(),
                    );
                    proof {
                        let upto = requests@.take(at + 1);
                        assert(upto.drop_last() == requests@.take(at as int));
                        assert(upto.last() == requests@[at as int]);
                        let entry: ServiceMessage<D, P, S, L> = SystemMessage::OrderedRequest(
                            upto.last().message,
                        );
                        assert(Self::message_verdict::<NI, VH>(
                            info_provider,
                            &upto.last().header,
                            &entry,
                        ) == Ok::<bool, ErrorView>(true));
                    }
                    match Self::verify_message_internal::<NI, VH>(info_provider, header, &message) {
                        Ok(valid) => {
                            result = result && valid;
                        },
                        Err(error) => {
                            return Err(error);
                        },
                    }
                    at += 1;
                }
                assert(requests@.take(at as int) == requests@);
                Ok(result)
            },
        }
    }
}

impl<D, P, S, L> Service<D, P, S, L> where
    D: ApplicationData,
    P: OrderingProtocolMessage<D>,
    S: StateTransferMessage,
    L: LogTransferMessage<D, P>,
 {
    /// Verification is deterministic: whatever two calls of
    /// `verify_message_internal` return for one header and one envelope, both
    /// succeed with the same verdict or both fail with a failure of the same
    /// kind and message.
    pub proof fn lemma_verification_deterministic<NI, VH>(
        network_info: &Arc<NI>,
        header: &Header,
        msg: &ServiceMessage<D, P, S, L>,
        first: Result<bool, Error>,
        second: Result<bool, Error>,
    ) where
        VH: LogTransferVerificationHelper<D, P, NI> + StateTransferVerificationHelper,
        P: OrderProtocolVerifier<D, NI, VH>,
        S: StateTransferVerifier<NI, VH>,
        L: LogTransferVerifier<D, P, NI, VH>,
        D::Request: Clone,

        requires
            call_ensures(
                Self::verify_message_internal::<NI, VH>,
                (network_info, header, msg),
                first,
            ),
            call_ensures(
                Self::verify_message_internal::<NI, VH>,
                (network_info, header, msg),
                second,
            ),
        ensures
            first is Ok <==> second is Ok,
            first is Ok ==> first->Ok_0 == second->Ok_0,
            first is Err ==> first->Err_0@ == second->Err_0@,
    {
    }

    /// The envelope as it is to be used once it is verified: the envelope
    /// with the payload that the verifier of its variant handed back, and the
    /// envelope itself where no verifier is asked or the verifier fails.
    pub open spec fn handed_back<NI, VH>(
        network_info: &Arc<NI>,
        header: &Header,
        msg: &ServiceMessage<D, P, S, L>,
    ) -> ServiceMessage<D, P, S, L> where
        VH: LogTransferVerificationHelper<D, P, NI> + StateTransferVerificationHelper,
        P: OrderProtocolVerifier<D, NI, VH>,
        S: StateTransferVerifier<NI, VH>,
        L: LogTransferVerifier<D, P, NI, VH>,
     {
        match msg {
            SystemMessage::ProtocolMessage(protocol) => match P::protocol_message_verdict(
                network_info,
                header,
                protocol,
            ) {
                Ok((_, message)) => SystemMessage::ProtocolMessage(message),
                Err(_) => *msg,
            },
            SystemMessage::LogTransferMessage(log_transfer) => match L::log_message_verdict(
                network_info,
                header,
                log_transfer,
            ) {
                Ok((_, message)) => SystemMessage::LogTransferMessage(message),
                Err(_) => *msg,
            },
            SystemMessage::StateTransferMessage(state_transfer) => match S::state_message_verdict(
                network_info,
                header,
                state_transfer,
            ) {
                Ok((_, message)) => SystemMessage::StateTransferMessage(message),
                Err(_) => *msg,
            },
            SystemMessage::ForwardedProtocolMessage(fwd_protocol) => match P::protocol_message_verdict(
                network_info,
                &fwd_protocol.message.header,
                &fwd_protocol.message.message,
            ) {
                Ok((_, message)) => SystemMessage::ForwardedProtocolMessage(
                    ForwardedProtocolMessage {
                        message: StoredMessage { header: fwd_protocol.message.header, message },
                    },
                ),
                Err(_) => *msg,
            },
            _ => *msg,
        }
    }

    /// Verification settles: the envelope that a verification hands back is
    /// verified to the same verdict as the envelope that was handed in, and is
    /// handed back as it is.
    pub proof fn lemma_verification_settles<NI, VH>(
        network_info: &Arc<NI>,
        header: &Header,
        msg: &ServiceMessage<D, P, S, L>,
    ) where
        VH: LogTransferVerificationHelper<D, P, NI> + StateTransferVerificationHelper,
        P: OrderProtocolVerifier<D, NI, VH>,
        S: StateTransferVerifier<NI, VH>,
        L: LogTransferVerifier<D, P, NI, VH>,

        ensures
            Self::message_verdict::<NI, VH>(
                network_info,
                header,
                &Self::handed_back::<NI, VH>(network_info, header, msg),
            ) == Self::message_verdict::<NI, VH>(network_info, header, msg),
            Self::handed_back::<NI, VH>(
                network_info,
                header,
                &Self::handed_back::<NI, VH>(network_info, header, msg),
            ) == Self::handed_back::<NI, VH>(network_info, header, msg),
    {
        match msg {
            SystemMessage::ProtocolMessage(protocol) => {
                P::lemma_protocol_message_verdict_settles(network_info, header, protocol);
            },
            SystemMessage::LogTransferMessage(log_transfer) => {
                L::lemma_log_message_verdict_settles(network_info, header, log_transfer);
            },
            SystemMessage::StateTransferMessage(state_transfer) => {
                S::lemma_state_message_verdict_settles(network_info, header, state_transfer);
            },
            SystemMessage::ForwardedProtocolMessage(fwd_protocol) => {
                P::lemma_protocol_message_verdict_settles(
                    network_info,
                    &fwd_protocol.message.header,
                    &fwd_protocol.message.message,
                );
            },
            _ => {},
        }
    }

    /// A relayed protocol message is verified under the header that it was
    /// stored with alone: the verdict is that of the verifier of the ordering
    /// protocol on the stored header and message, whatever the header of the
    /// envelope that relays it.
    pub proof fn lemma_forwarded_message_isolated<NI, VH>(
        network_info: &Arc<NI>,
        outer: &Header,
        other_outer: &Header,
        msg: &ServiceMessage<D, P, S, L>,
    ) where
        VH: LogTransferVerificationHelper<D, P, NI> + StateTransferVerificationHelper,
        P: OrderProtocolVerifier<D, NI, VH>,
        S: StateTransferVerifier<NI, VH>,
        L: LogTransferVerifier<D, P, NI, VH>,

        requires
            msg is ForwardedProtocolMessage,
        ensures
            Self::message_verdict::<NI, VH>(network_info, outer, msg) == Self::message_verdict::<
                NI,
                VH,
            >(network_info, other_outer, msg),
            Self::message_verdict::<NI, VH>(network_info, outer, msg) == validity(
                P::protocol_message_verdict(
                    network_info,
                    &msg->ForwardedProtocolMessage_0.message.header,
                    &msg->ForwardedProtocolMessage_0.message.message,
                ),
            ),
    {
    }

    /// Requests of clients are trusted here, so relayed requests are found
    /// valid however many they are and whatever headers they were stored
    /// with.
    pub proof fn lemma_requests_trusted<NI, VH>(
        network_info: &Arc<NI>,
        requests: Seq<StoredRequestMessage<D::Request>>,
    ) where
        VH: LogTransferVerificationHelper<D, P, NI> + StateTransferVerificationHelper,
        P: OrderProtocolVerifier<D, NI, VH>,
        S: StateTransferVerifier<NI, VH>,
        L: LogTransferVerifier<D, P, NI, VH>,

        ensures
            Self::requests_verdict::<NI, VH>(network_info, requests) == Ok::<bool, ErrorView>(
                true,
            ),
        decreases requests.len(),
    {
        if requests.len() > 0 {
            Self::lemma_requests_trusted::<NI, VH>(network_info, requests.drop_last());
            let entry: ServiceMessage<D, P, S, L> = SystemMessage::OrderedRequest(
                requests.last().message,
            );
            assert(Self::message_verdict::<NI, VH>(network_info, &requests.last().header, &entry)
                == Ok::<bool, ErrorView>(true));
        }
    }
}

/// The protocol of a service that has none: it stands in for the ordering,
/// state transfer and log transfer protocols of a client. Its messages are
/// empty and its verifiers find nothing valid.
#[derive(Debug)]
pub struct NoProtocol;

/// The view of a service that has no ordering protocol. It has no primary, no
/// quorum and no sequence number, and so offers none.
#[derive(Clone, Debug)]
pub struct NoView;

impl ApplicationData for NoProtocol {
    type Request = ();

    type Reply = ();
}

impl<D: ApplicationData> OrderingProtocolMessage<D> for NoProtocol {
    type ProtocolMessage = ();

    type LoggableMessage = ();

    type Proof = ();

    type ProofMetadata = ();
}

impl<D, NI, OPVH> OrderProtocolVerifier<D, NI, OPVH> for NoProtocol where
    D: ApplicationData,
    OPVH: OrderProtocolSignatureVerificationHelper<D, NoProtocol, NI>,
 {
    open spec fn protocol_message_verdict(
        network_info: &Arc<NI>,
        header: &Header,
        message: &(),
    ) -> Result<(bool, ()), ErrorView> {
        Ok((false, *message))
    }

    fn verify_order_protocol_message(network_info: &Arc<NI>, header: &Header, message: &()) -> (res:
        Result<(bool, ()), Error>) {
        Ok((false, *message))
    }

    proof fn lemma_protocol_message_verdict_settles(
        network_info: &Arc<NI>,
        header: &Header,
        message: &(),
    ) {
    }

    open spec fn proof_verdict(network_info: &Arc<NI>, proof: ()) -> Result<(bool, ()), ErrorView> {
        Ok((false, proof))
    }

    fn verify_proof(network_info: &Arc<NI>, proof: ()) -> (res: Result<(bool, ()), Error>) {
        Ok((false, proof))
    }
}

impl StateTransferMessage for NoProtocol {
    type StateTransferMessage = ();
}

impl<NI, SVH> StateTransferVerifier<NI, SVH> for NoProtocol where
    SVH: StateTransferVerificationHelper,
 {
    open spec fn state_message_verdict(
        network_info: &Arc<NI>,
        header: &Header,
        message: &(),
    ) -> Result<(bool, ()), ErrorView> {
        Ok((false, *message))
    }

    proof fn lemma_state_message_verdict_settles(
        network_info: &Arc<NI>,
        header: &Header,
        message: &(),
    ) {
    }

    fn verify_state_message(network_info: &Arc<NI>, header: &Header, message: &()) -> (res: Result<
        (bool, ()),
        Error,
    >) {
        Ok((false, *message))
    }
}

impl<D, P> LogTransferMessage<D, P> for NoProtocol {
    type LogTransferMessage = ();
}

impl<D, P, NI, LVH> LogTransferVerifier<D, P, NI, LVH> for NoProtocol where
    D: ApplicationData,
    P: OrderingProtocolMessage<D>,
    LVH: LogTransferVerificationHelper<D, P, NI>,
 {
    open spec fn log_message_verdict(
        network_info: &Arc<NI>,
        header: &Header,
        message: &(),
    ) -> Result<(bool, ()), ErrorView> {
        Ok((false, *message))
    }

    proof fn lemma_log_message_verdict_settles(
        network_info: &Arc<NI>,
        header: &Header,
        message: &(),
    ) {
    }

    fn verify_log_message(network_info: &Arc<NI>, header: &Header, message: &()) -> (res: Result<
        (bool, ()),
        Error,
    >) {
        Ok((false, *message))
    }
}

} // verus!
