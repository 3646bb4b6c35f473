//! The contract between the replica and the ordering protocol that it drives,
//! and the decisions that the protocol hands back.

pub mod decision;
pub mod networking;

pub use decision::{
    delivery_ordered, events_of, Decision, DecisionEvent, DecisionInfo, DecisionView,
    ProtocolConsensusDecision,
};

use vstd::prelude::*;
use std::sync::Arc;
use crate::error::{Error, ErrorKind};
use crate::messages::{ApplicationData, ShareableMessage};
use crate::sequencing::{NodeId, Orderable, SeqNo};
use crate::timeouts::RqTimeout;
use networking::{OrderingProtocolMessage, PermissionedOrderingProtocolMessage};

verus! {

/// The view of a permissioned ordering protocol.
pub type ProtocolView<POP> = <POP as PermissionedOrderingProtocolMessage>::ViewInfo;

/// The messages of an ordering protocol.
pub type ProtocolMessage<D, OP> = <OP as OrderingProtocolMessage<D>>::ProtocolMessage;

/// What an ordering protocol says of a decision before it is made.
pub type DecisionMetadata<D, OP> = <OP as OrderingProtocolMessage<D>>::ProofMetadata;

/// What an ordering protocol is started with: the handle of the executor, the
/// timeout service, the pre-processor of requests, the source of batches, the
/// network node, and the nodes of the quorum at the start.
pub struct OrderingProtocolArgs<EX, TM, RP, BO, NT>(
    pub EX,
    pub TM,
    pub RP,
    pub BO,
    pub Arc<NT>,
    pub Vec<NodeId>,
);

/// How many replicas a protocol needs to withstand a number of faults.
pub trait OrderProtocolTolerance {
    /// The number of replicas needed to withstand `f` faults.
    spec fn spec_n_for_f(f: nat) -> nat;

    /// The number of replicas needed to withstand `f` faults.
    fn get_n_for_f(f: usize) -> (n: usize)
        requires
            Self::spec_n_for_f(f as nat) <= usize::MAX,
        ensures
            n == Self::spec_n_for_f(f as nat),
    ;
}

/// The tolerance of the protocols that withstand Byzantine faults: of `3f + 1`
/// replicas, `f` may be arbitrarily faulty.
pub struct ByzantineTolerance;

impl OrderProtocolTolerance for ByzantineTolerance {
    open spec fn spec_n_for_f(f: nat) -> nat {
        3 * f + 1
    }

    fn get_n_for_f(f: usize) -> (n: usize) {
        3 * f + 1
    }
}

impl ByzantineTolerance {
    /// To withstand `f` Byzantine faults takes `3f + 1` replicas, which is
    /// more than three times as many as may be faulty.
    pub proof fn lemma_three_f_plus_one(f: nat)
        ensures
            <ByzantineTolerance as OrderProtocolTolerance>::spec_n_for_f(f) == 3 * f + 1,
            <ByzantineTolerance as OrderProtocolTolerance>::spec_n_for_f(f) > 3 * f,
    {
    }
}

/// A node has joined the quorum.
#[derive(Clone, Debug, PartialEq, Eq)]
pub struct JoinInfo {
    node: NodeId,
    new_quorum: Vec<NodeId>,
}

impl JoinInfo {
    /// The node that joined.
    pub closed spec fn spec_node(&self) -> NodeId {
        self.node
    }

    /// The members of the quorum after the node joined.
    pub closed spec fn spec_new_quorum(&self) -> Vec<NodeId> {
        self.new_quorum
    }

    /// The given node has joined, and the quorum is now the given one.
    pub fn new(joined: NodeId, current_quorum: Vec<NodeId>) -> (info: Self)
        ensures
            info.spec_node() == joined,
            info.spec_new_quorum() == current_quorum,
    {
        Self { node: joined, new_quorum: current_quorum }
    }

    /// The node that joined and the members of the quorum after it did.
    pub fn into_inner(self) -> (parts: (NodeId, Vec<NodeId>))
        ensures
            parts == (self.spec_node(), self.spec_new_quorum()),
    {
        (self.node, self.new_quorum)
    }
}

/// What the replica is to do with the decisions that are in flight beyond the
/// newest one that the protocol returned.
#[derive(Clone, Copy, Debug, PartialEq, Eq, Structural)]
pub enum DecisionsAhead {
    /// Keep them.
    Ignore,
    /// Discard them.
    ClearAhead,
}

impl DecisionsAhead {
    /// What is left of the decisions in flight once the protocol has returned
    /// a decision of the given sequence number under this policy: all of
    /// them where the policy is to ignore, and those of sequence numbers up
    /// to the given one, in their order, where it is to clear ahead.
    pub fn retain<MD, P, O>(
        self,
        newest: SeqNo,
        in_flight: Vec<Decision<MD, P, O>>,
    ) -> (kept: Vec<Decision<MD, P, O>>)
        ensures
            self == DecisionsAhead::Ignore ==> kept@ == in_flight@,
            self == DecisionsAhead::ClearAhead ==> kept@ == in_flight@.filter(
                |decision: Decision<MD, P, O>| decision@.seq@ <= newest@,
            ),
    {
        match self {
            DecisionsAhead::Ignore => in_flight,
            DecisionsAhead::ClearAhead => {
                let ghost not_ahead = |decision: Decision<MD, P, O>| decision@.seq@ <= newest@;
                let ghost all = in_flight@;
                let mut rest = in_flight;
                let mut kept: Vec<Decision<MD, P, O>> = Vec::new();
                proof {
                    reveal(Seq::filter);
                    assert(all.take(0).filter(not_ahead) =~= Seq::empty());
                }
                while rest.len() > 0
                    invariant
                        not_ahead == |decision: Decision<MD, P, O>| decision@.seq@ <= newest@,
                        rest@.len() <= all.len(),
                        rest@ == all.skip(all.len() - rest@.len()),
                        kept@ == all.take(all.len() - rest@.len()).filter(not_ahead),
                    decreases rest.len(),
                {
                    let ghost done = all.len() - rest@.len();
                    let decision = rest.remove(0);
                    proof {
                        assert(decision == all[done]);
                        assert(all.take(done + 1) == all.take(done).push(all[done]));
                        all.take(done).lemma_filter_push(all[done], not_ahead);
                        assert(rest@ == all.skip(done + 1));
                    }
                    if !decision.sequence_number().is_after(&newest) {
                        kept.push(decision);
                    }
                }
                proof {
                    assert(all.take(all.len() as int) == all);
                }
                kept
            },
        }
    }
}

/// Where an ordering protocol stands, as the replica that drives it sees it.
#[derive(Clone, Copy, Debug, PartialEq, Eq, Structural)]
pub enum DriverState {
    /// Not started.
    Idle,
    /// Ordering requests.
    Normal,
    /// Behind the other replicas: the state transfer is to run.
    OutOfDate,
    /// A change of the quorum is under way.
    Joining,
}

/// What moves an ordering protocol from one state to another.
#[derive(Clone, Copy, Debug, PartialEq, Eq, Structural)]
pub enum DriverEvent {
    /// The protocol was started.
    Initialized,
    /// The protocol asked for the state transfer.
    RunCst,
    /// The state transfer is over and a sequence number was installed.
    SeqNoInstalled,
    /// A node joined the quorum.
    QuorumJoined,
    /// The replica has taken note of the node that joined.
    JoinAcknowledged,
    /// Anything else that the protocol answered.
    Progress,
}

impl DriverState {
    /// The state after an event: a protocol that is started becomes normal; a
    /// normal one that asks for the state transfer is out of date until a
    /// sequence number is installed; a node that joins the quorum puts the
    /// protocol in the joining state, whatever state it was in, until the
    /// replica acknowledges. Any other event leaves the state as it is.
    pub open spec fn spec_after(self, event: DriverEvent) -> DriverState {
        match (self, event) {
            (_, DriverEvent::QuorumJoined) => DriverState::Joining,
            (DriverState::Idle, DriverEvent::Initialized) => DriverState::Normal,
            (DriverState::Normal, DriverEvent::RunCst) => DriverState::OutOfDate,
            (DriverState::OutOfDate, DriverEvent::SeqNoInstalled) => DriverState::Normal,
            (DriverState::Joining, DriverEvent::JoinAcknowledged) => DriverState::Normal,
            (state, _) => state,
        }
    }

    /// The state after an event.
    #[verifier::when_used_as_spec(spec_after)]
    pub fn after(self, event: DriverEvent) -> (next: DriverState)
        ensures
            next == self.spec_after(event),
    {
        match (self, event) {
            (_, DriverEvent::QuorumJoined) => DriverState::Joining,
            (DriverState::Idle, DriverEvent::Initialized) => DriverState::Normal,
            (DriverState::Normal, DriverEvent::RunCst) => DriverState::OutOfDate,
            (DriverState::OutOfDate, DriverEvent::SeqNoInstalled) => DriverState::Normal,
            (DriverState::Joining, DriverEvent::JoinAcknowledged) => DriverState::Normal,
            (state, _) => state,
        }
    }
}

/// What polling the ordering protocol gives.
#[derive(Debug)]
pub enum OPPollResult<MD, P, D> {
    /// The protocol has fallen behind and the replica is to run the state
    /// transfer.
    RunCst,
    /// The protocol needs messages of other replicas to go on.
    ReceiveMsg,
    /// A message that arrived ahead of its time is now ready to be processed.
    Exec(ShareableMessage<P>),
    /// Decisions have progressed.
    ProgressedDecision(DecisionsAhead, Vec<Decision<MD, P, D>>),
    /// A node has joined the quorum.
    QuorumJoined(DecisionsAhead, Option<Vec<Decision<MD, P, D>>>, JoinInfo),
    /// The protocol wants to be polled again.
    RePoll,
}

impl<MD, P, D> OPPollResult<MD, P, D> {
    /// What the result means for the state of the protocol.
    pub fn driver_event(&self) -> (event: DriverEvent)
        ensures
            event == (match self {
                OPPollResult::RunCst => DriverEvent::RunCst,
                OPPollResult::QuorumJoined(_, _, _) => DriverEvent::QuorumJoined,
                _ => DriverEvent::Progress,
            }),
    {
        match self {
            OPPollResult::RunCst => DriverEvent::RunCst,
            OPPollResult::QuorumJoined(_, _, _) => DriverEvent::QuorumJoined,
            _ => DriverEvent::Progress,
        }
    }

    /// The number of decisions that the result carries.
    pub fn decision_count(&self) -> (count: usize)
        ensures
            count == (match self {
                OPPollResult::ProgressedDecision(_, decisions) => decisions@.len(),
                OPPollResult::QuorumJoined(_, Some(decisions), _) => decisions@.len(),
                _ => 0,
            }),
    {
        match self {
            OPPollResult::ProgressedDecision(_, decisions) => decisions.len(),
            OPPollResult::QuorumJoined(_, Some(decisions), _) => decisions.len(),
            _ => 0,
        }
    }
}

/// What processing a message or a batch of timeouts gives.
#[derive(Debug)]
pub enum OPExecResult<MD, P, D> {
    /// The message was dropped.
    MessageDropped,
    /// The message was queued for later.
    MessageQueued,
    /// The input was processed and nothing new came of it.
    MessageProcessedNoUpdate,
    /// Decisions have progressed.
    ProgressedDecision(DecisionsAhead, Vec<Decision<MD, P, D>>),
    /// A node has joined the quorum.
    QuorumJoined(DecisionsAhead, Option<Vec<Decision<MD, P, D>>>, JoinInfo),
    /// The protocol has fallen behind and the replica is to run the state
    /// transfer.
    RunCst,
}

impl<MD, P, D> OPExecResult<MD, P, D> {
    /// What the result means for the state of the protocol.
    pub fn driver_event(&self) -> (event: DriverEvent)
        ensures
            event == (match self {
                OPExecResult::RunCst => DriverEvent::RunCst,
                OPExecResult::QuorumJoined(_, _, _) => DriverEvent::QuorumJoined,
                _ => DriverEvent::Progress,
            }),
    {
        match self {
            OPExecResult::RunCst => DriverEvent::RunCst,
            OPExecResult::QuorumJoined(_, _, _) => DriverEvent::QuorumJoined,
            _ => DriverEvent::Progress,
        }
    }
}

/// What is to be reported after an operation on the log.
#[derive(Clone, Copy, Debug, PartialEq, Eq, Structural)]
pub enum ExecutionResult {
    /// Nothing.
    Nil,
    /// The log is full: the application is to hand over its state so that the
    /// log can be cut at a checkpoint.
    BeginCheckpoint,
}

/// An ordering protocol as the replica drives it. The replica calls these
/// methods one at a time, and the protocol never blocks in them.
pub trait OrderingProtocol<D, NT>: OrderProtocolTolerance + Orderable where D: ApplicationData {
    /// The types of the messages of the protocol.
    type Serialization: OrderingProtocolMessage<D>;

    /// What the protocol is configured with.
    type Config;

    /// The handle through which the protocol reaches the executor.
    type ExecutorHandle;

    /// The timeout service.
    type Timeouts;

    /// The pre-processor of the requests of clients.
    type RequestPreProcessor;

    /// The source of the batches of requests to propose.
    type BatchOutput;

    /// A bound on how many times in a row `poll` asks to be polled again.
    spec fn repoll_budget(&self) -> nat;

    /// What one poll may do: whether a poll of the protocol as it is may
    /// leave it as the given protocol and give the given answer.
    spec fn polled(
        &self,
        after: &Self,
        result: &OPPollResult<
            DecisionMetadata<D, Self::Serialization>,
            ProtocolMessage<D, Self::Serialization>,
            D::Request,
        >,
    ) -> bool;

    /// Starts the protocol. What it returns is ready to be polled, and where
    /// it fails the failure is fatal.
    fn initialize(
        config: Self::Config,
        args: OrderingProtocolArgs<
            Self::ExecutorHandle,
            Self::Timeouts,
            Self::RequestPreProcessor,
            Self::BatchOutput,
            NT,
        >,
    ) -> (started: Result<Self, Error>) where Self: Sized
        ensures
            started matches Err(error) ==> error.kind() == ErrorKind::Fatal,
    ;

    /// Takes a message that arrived while another protocol was in charge. The
    /// protocol may keep it or drop it, and makes no progress on decisions.
    fn handle_off_ctx_message(
        &mut self,
        message: ShareableMessage<ProtocolMessage<D, Self::Serialization>>,
    )
        ensures
            final(self).spec_sequence_number() == old(self).spec_sequence_number(),
    ;

    /// Tells the protocol that it is now in charge, or no longer so.
    fn handle_execution_changed(&mut self, is_executing: bool) -> Result<(), Error>;

    /// Asks the protocol what the replica is to do next. Each answer that asks
    /// to be polled again uses up some of the budget for such answers, so
    /// they cannot go on for ever.
    fn poll(&mut self) -> (result: OPPollResult<
        DecisionMetadata<D, Self::Serialization>,
        ProtocolMessage<D, Self::Serialization>,
        D::Request,
    >)
        ensures
            old(self).polled(final(self), &result),
            result is RePoll ==> final(self).repoll_budget() < old(self).repoll_budget(),
    ;

    /// Hands the protocol a message, from the network or from `poll`.
    fn process_message(
        &mut self,
        message: ShareableMessage<ProtocolMessage<D, Self::Serialization>>,
    ) -> Result<
        OPExecResult<
            DecisionMetadata<D, Self::Serialization>,
            ProtocolMessage<D, Self::Serialization>,
            D::Request,
        >,
        Error,
    >;

    /// Moves the protocol to the given sequence number, as after a state
    /// transfer.
    fn install_seq_no(&mut self, seq_no: SeqNo) -> (res: Result<(), Error>)
        ensures
            res is Ok ==> final(self).spec_sequence_number() == seq_no,
    ;

    /// Hands the protocol the waits that have expired.
    fn handle_timeout(&mut self, timeout: Vec<RqTimeout>) -> Result<
        OPExecResult<
            DecisionMetadata<D, Self::Serialization>,
            ProtocolMessage<D, Self::Serialization>,
            D::Request,
        >,
        Error,
    >;
}

/// Whether a protocol went through the given states by polls in a row, each
/// of which asked to be polled again: a poll of each state but the last may
/// leave the protocol in the next state with that answer.
pub open spec fn repolled<D, NT, OP>(states: Seq<OP>) -> bool where
    D: ApplicationData,
    OP: OrderingProtocol<D, NT>,
 {
    forall|at: int|
        0 <= at < states.len() - 1 ==> (#[trigger] states[at]).polled(
            &states[at + 1],
            &OPPollResult::RePoll,
        )
}

/// Polls the protocol until it has something else to say than to poll it
/// again: what is returned is the answer of the last of the polls, the first
/// answer that does not ask for another poll, and the protocol is left as
/// these polls left it. The polls end, since each one that asks for another
/// uses up some of the protocol's budget for such answers.
pub fn poll_until_settled<D, NT, OP>(protocol: &mut OP) -> (result: OPPollResult<
    DecisionMetadata<D, OP::Serialization>,
    ProtocolMessage<D, OP::Serialization>,
    D::Request,
>) where D: ApplicationData, OP: OrderingProtocol<D, NT>
    ensures
        !(result is RePoll),
        exists|states: Seq<OP>|
            states.len() > 0 && states[0] == *old(protocol) && #[trigger] repolled::<D, NT, OP>(
                states,
            ) && states.last().polled(final(protocol), &result),
{
    let ghost mut states: Seq<OP> = seq![*protocol];
    loop
        invariant
            states.len() > 0,
            states[0] == *old(protocol),
            states.last() == *protocol,
            repolled::<D, NT, OP>(states),
        decreases protocol.repoll_budget(),
    {
        let result = protocol.poll();
        match result {
            OPPollResult::RePoll => {
                proof {
                    let before = states;
                    states = states.push(*protocol);
                    assert forall|at: int| 0 <= at < states.len() - 1 implies (
                    #[trigger] states[at]).polled(&states[at + 1], &OPPollResult::RePoll) by {
                        if at < before.len() - 1 {
                            assert(before[at].polled(&before[at + 1], &OPPollResult::RePoll));
                        }
                    }
                }
            },
            settled => {
                return settled;
            },
        }
    }
}

/// An ordering protocol in which only the members of a quorum take part.
pub trait PermissionedOrderingProtocol {
    /// The types of the protocol.
    type PermissionedSerialization: PermissionedOrderingProtocolMessage;

    /// The view that the protocol is in.
    spec fn spec_view(&self) -> ProtocolView<Self::PermissionedSerialization>;

    /// The view that the protocol is in.
    fn view(&self) -> (view: ProtocolView<Self::PermissionedSerialization>)
        ensures
            view == self.spec_view(),
    ;

    /// Puts the protocol in the given view.
    fn install_view(&mut self, view: ProtocolView<Self::PermissionedSerialization>)
        ensures
            final(self).spec_view() == view,
    ;
}

} // verus!
