//! The messages of a state transfer protocol, and how the framework has them
//! verified.

use vstd::prelude::*;
use std::sync::Arc;
use crate::error::{answers, Error, ErrorView};
use crate::messages::Header;

verus! {

/// The type of the messages of a state transfer protocol.
pub trait StateTransferMessage: Sized {
    /// What the replicas send each other to catch up on the state.
    type StateTransferMessage;
}

/// What a state transfer protocol may use to verify its messages.
pub trait StateTransferVerificationHelper {

}

/// How the messages of a state transfer protocol are verified. Verification is
/// a function of its arguments. What is known of the network is one of them, so
/// keys that change have to come in with the value that describes the
/// network.
pub trait StateTransferVerifier<NI, SVH>: StateTransferMessage where
    SVH: StateTransferVerificationHelper,
 {
    /// What verifying a message under a header gives: whether it is valid,
    /// with the message as it is to be used from then on, or the failure of the
    /// verification itself.
    spec fn state_message_verdict(
        network_info: &Arc<NI>,
        header: &Header,
        message: &Self::StateTransferMessage,
    ) -> Result<(bool, Self::StateTransferMessage), ErrorView>;

    /// Verifying the message that a verification handed back gives the same
    /// verdict and hands the same message back.
    proof fn lemma_state_message_verdict_settles(
        network_info: &Arc<NI>,
        header: &Header,
        message: &Self::StateTransferMessage,
    )
        ensures
            Self::state_message_verdict(network_info, header, message) matches Ok(verdict)
                ==> Self::state_message_verdict(network_info, header, &verdict.1) == Ok::<
                (bool, Self::StateTransferMessage),
                ErrorView,
            >(verdict),
    ;

    /// Verifies a message under the header that it arrived with.
    fn verify_state_message(
        network_info: &Arc<NI>,
        header: &Header,
        message: &Self::StateTransferMessage,
    ) -> (res: Result<(bool, Self::StateTransferMessage), Error>)
        ensures
            answers(res, Self::state_message_verdict(network_info, header, message)),
    ;
}

} // verus!
