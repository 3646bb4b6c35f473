//! The messages of a log transfer protocol, and how the framework has them
//! verified.

use vstd::prelude::*;
use std::sync::Arc;
use crate::error::{answers, Error, ErrorView};
use crate::messages::{ApplicationData, Header};
use crate::ordering_protocol::networking::{
    OrderProtocolSignatureVerificationHelper,
    OrderingProtocolMessage,
};

verus! {

/// The type of the messages of a log transfer protocol.
pub trait LogTransferMessage<D, OP>: Sized {
    /// What the replicas send each other to catch up on the log of decisions.
    type LogTransferMessage;
}

/// What a log transfer protocol may use to verify its messages: all that the
/// ordering protocol may use, since the log holds its messages.
pub trait LogTransferVerificationHelper<D, OP, NI>: OrderProtocolSignatureVerificationHelper<
    D,
    OP,
    NI,
> where D: ApplicationData, OP: OrderingProtocolMessage<D> {

}

/// How the messages of a log transfer protocol are verified. Verification is a
/// function of its arguments. What is known of the network is one of them, so
/// keys that change have to come in with the value that describes the
/// network.
pub trait LogTransferVerifier<D, OP, NI, LVH>: LogTransferMessage<D, OP> where
    D: ApplicationData,
    OP: OrderingProtocolMessage<D>,
    LVH: LogTransferVerificationHelper<D, OP, NI>,
 {
    /// What verifying a message under a header gives: whether it is valid,
    /// with the message as it is to be used from then on, or the failure of the
    /// verification itself.
    spec fn log_message_verdict(
        network_info: &Arc<NI>,
        header: &Header,
        message: &Self::LogTransferMessage,
    ) -> Result<(bool, Self::LogTransferMessage), ErrorView>;

    /// Verifying the message that a verification handed back gives the same
    /// verdict and hands the same message back.
    proof fn lemma_log_message_verdict_settles(
        network_info: &Arc<NI>,
        header: &Header,
        message: &Self::LogTransferMessage,
    )
        ensures
            Self::log_message_verdict(network_info, header, message) matches Ok(verdict)
                ==> Self::log_message_verdict(network_info, header, &verdict.1) == Ok::<
                (bool, Self::LogTransferMessage),
                ErrorView,
            >(verdict),
    ;

    /// Verifies a message under the header that it arrived with.
    fn verify_log_message(
        network_info: &Arc<NI>,
        header: &Header,
        message: &Self::LogTransferMessage,
    ) -> (res: Result<(bool, Self::LogTransferMessage), Error>)
        ensures
            answers(res, Self::log_message_verdict(network_info, header, message)),
    ;
}

} // verus!
