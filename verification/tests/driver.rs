use std::collections::VecDeque;
use std::sync::Arc;

use atlas_core::error::{Error, ErrorKind};
use atlas_core::messages::{
    ApplicationData, ClientRqInfo, Digest, Header, ShareableMessage, StoredMessage, UpdateBatch,
};
use atlas_core::ordering_protocol::networking::{OrderProtocolProof, OrderingProtocolMessage};
use atlas_core::ordering_protocol::{
    poll_until_settled, ByzantineTolerance, Decision, DecisionInfo, DecisionsAhead, DriverEvent,
    DriverState, ExecutionResult, JoinInfo, OPExecResult, OPPollResult, OrderProtocolTolerance,
    OrderingProtocol, OrderingProtocolArgs, ProtocolConsensusDecision,
};
use atlas_core::sequencing::{NodeId, Orderable, SeqNo};
use atlas_core::timeouts::{RqTimeout, TimeoutKind};

#[derive(Clone, Debug, PartialEq, Eq)]
struct App;

impl ApplicationData for App {
    type Request = u64;
    type Reply = u64;
}

struct Messages;

struct Evidence;

impl OrderProtocolProof for Evidence {}

impl OrderingProtocolMessage<App> for Messages {
    type ProtocolMessage = u64;
    type LoggableMessage = u64;
    type Proof = Evidence;
    type ProofMetadata = u64;
}

type Poll = OPPollResult<u64, u64, u64>;
type Exec = OPExecResult<u64, u64, u64>;

fn stored(payload: u64) -> ShareableMessage<u64> {
    let header = Header {
        version: 1,
        from: NodeId(2),
        to: NodeId(1),
        nonce: payload,
        length: 8,
        digest: Digest { bytes: [0u8; 32] },
        signature: [0u8; 64],
    };
    Arc::new(StoredMessage::new(header, payload))
}

fn completed(seq: u32) -> ProtocolConsensusDecision<u64> {
    let mut batch = UpdateBatch::new();
    batch.add(NodeId(1000), SeqNo::from(1u32), SeqNo::from(1u32), 55);
    ProtocolConsensusDecision::new(
        SeqNo::from(seq),
        batch,
        vec![ClientRqInfo::new(
            Digest { bytes: [1u8; 32] },
            NodeId(1000),
            SeqNo::from(1u32),
            SeqNo::from(1u32),
        )],
        Digest { bytes: [2u8; 32] },
    )
}

/// A protocol that answers polls from a script, decides sequence number 5 on
/// the message that it handed out, queues messages while it is not in charge,
/// and drops everything else.
struct Scripted {
    seq: SeqNo,
    script: VecDeque<Poll>,
    polls: usize,
    executing: bool,
    off_context: Vec<u64>,
}

impl Scripted {
    fn with_script(script: Vec<Poll>) -> Self {
        Scripted {
            seq: SeqNo::from(5u32),
            script: script.into_iter().collect(),
            polls: 0,
            executing: true,
            off_context: Vec::new(),
        }
    }
}

impl Orderable for Scripted {
    fn spec_sequence_number(&self) -> SeqNo {
        self.seq
    }

    fn sequence_number(&self) -> SeqNo {
        self.seq
    }
}

impl OrderProtocolTolerance for Scripted {
    fn spec_n_for_f(_f: vstd::prelude::nat) -> vstd::prelude::nat {
        unreachable!()
    }

    fn get_n_for_f(f: usize) -> usize {
        3 * f + 1
    }
}

impl OrderingProtocol<App, ()> for Scripted {
    type Serialization = Messages;
    type Config = Vec<Poll>;
    type ExecutorHandle = ();
    type Timeouts = ();
    type RequestPreProcessor = ();
    type BatchOutput = ();

    fn repoll_budget(&self) -> vstd::prelude::nat {
        unreachable!()
    }

    fn polled(&self, _after: &Self, _result: &Poll) -> bool {
        unreachable!()
    }

    fn initialize(
        config: Vec<Poll>,
        args: OrderingProtocolArgs<(), (), (), (), ()>,
    ) -> Result<Self, Error> {
        if args.5.is_empty() {
            Err(Error::simple_with_msg(ErrorKind::Fatal, "no quorum"))
        } else {
            Ok(Scripted::with_script(config))
        }
    }

    fn handle_off_ctx_message(&mut self, message: ShareableMessage<u64>) {
        self.off_context.push(*message.message());
    }

    fn handle_execution_changed(&mut self, is_executing: bool) -> Result<(), Error> {
        self.executing = is_executing;
        Ok(())
    }

    fn poll(&mut self) -> Poll {
        self.polls += 1;
        self.script.pop_front().unwrap_or(OPPollResult::ReceiveMsg)
    }

    fn process_message(&mut self, message: ShareableMessage<u64>) -> Result<Exec, Error> {
        if !self.executing {
            Ok(OPExecResult::MessageQueued)
        } else if *message.message() == 13 {
            Err(Error::simple_with_msg(ErrorKind::Persistence, "the log is full"))
        } else if *message.message() == 666 {
            Err(Error::simple_with_msg(ErrorKind::Protocol, "two proposals for one sequence number"))
        } else if *message.message() == 77 {
            Ok(OPExecResult::ProgressedDecision(
                DecisionsAhead::Ignore,
                vec![Decision::completed_decision(self.seq, completed(5))],
            ))
        } else {
            Ok(OPExecResult::MessageDropped)
        }
    }

    fn install_seq_no(&mut self, seq_no: SeqNo) -> Result<(), Error> {
        self.seq = seq_no;
        Ok(())
    }

    fn handle_timeout(&mut self, timeout: Vec<RqTimeout>) -> Result<Exec, Error> {
        if timeout.is_empty() {
            Ok(OPExecResult::MessageProcessedNoUpdate)
        } else {
            Ok(OPExecResult::RunCst)
        }
    }
}

fn start(script: Vec<Poll>) -> Scripted {
    let args = OrderingProtocolArgs((), (), (), (), Arc::new(()), vec![NodeId(1), NodeId(2)]);
    match Scripted::initialize(script, args) {
        Ok(protocol) => protocol,
        Err(error) => panic!("{}", error.message()),
    }
}

#[test]
fn poll_to_process_bridge() {
    let mut protocol = start(vec![OPPollResult::Exec(stored(77))]);
    let message = match protocol.poll() {
        OPPollResult::Exec(message) => message,
        other => panic!("{:?}", other),
    };
    match protocol.process_message(message) {
        Ok(OPExecResult::ProgressedDecision(DecisionsAhead::Ignore, decisions)) => {
            assert_eq!(decisions.len(), 1);
            assert_eq!(decisions[0].sequence_number(), SeqNo::from(5u32));
            assert_eq!(
                decisions[0].decision_info(),
                &vec![DecisionInfo::DecisionDone(completed(5))]
            );
        }
        other => panic!("{:?}", other),
    }
}

#[test]
fn repoll_is_honored_until_the_protocol_settles() {
    let mut protocol = start(vec![
        OPPollResult::RePoll,
        OPPollResult::RePoll,
        OPPollResult::RePoll,
        OPPollResult::RunCst,
        OPPollResult::RePoll,
    ]);
    let settled = poll_until_settled::<App, (), Scripted>(&mut protocol);
    assert!(matches!(settled, OPPollResult::RunCst));
    assert_eq!(protocol.polls, 4);
    let settled = poll_until_settled::<App, (), Scripted>(&mut protocol);
    assert!(matches!(settled, OPPollResult::ReceiveMsg));
    assert_eq!(protocol.polls, 6);
}

#[test]
fn a_settled_poll_is_returned_at_once() {
    let mut protocol = start(vec![OPPollResult::Exec(stored(1)), OPPollResult::RePoll]);
    let settled = poll_until_settled::<App, (), Scripted>(&mut protocol);
    match settled {
        OPPollResult::Exec(message) => assert_eq!(*message.message(), 1),
        other => panic!("{:?}", other),
    }
    assert_eq!(protocol.polls, 1);
}

#[test]
fn initialize_fails_fatally_without_a_quorum() {
    let args = OrderingProtocolArgs((), (), (), (), Arc::new(()), Vec::new());
    match Scripted::initialize(Vec::new(), args) {
        Ok(_) => panic!("started without a quorum"),
        Err(error) => assert_eq!(error.kind(), ErrorKind::Fatal),
    }
}

#[test]
fn messages_off_context_do_not_move_the_protocol() {
    let mut protocol = start(Vec::new());
    let before = protocol.sequence_number();
    protocol.handle_off_ctx_message(stored(3));
    assert_eq!(protocol.sequence_number(), before);
    assert_eq!(protocol.off_context, vec![3]);
    assert!(protocol.handle_execution_changed(false).is_ok());
    assert!(matches!(protocol.process_message(stored(77)), Ok(OPExecResult::MessageQueued)));
    assert!(protocol.handle_execution_changed(true).is_ok());
    assert!(matches!(protocol.process_message(stored(1)), Ok(OPExecResult::MessageDropped)));
}

#[test]
fn installing_a_sequence_number_moves_the_protocol() {
    let mut protocol = start(Vec::new());
    assert!(protocol.install_seq_no(SeqNo::from(40u32)).is_ok());
    assert_eq!(protocol.sequence_number(), SeqNo::from(40u32));
    assert!(protocol.install_seq_no(SeqNo::from(40u32)).is_ok());
    assert_eq!(protocol.sequence_number(), SeqNo::from(40u32));
}

#[test]
fn timeouts_are_handed_over() {
    let mut protocol = start(Vec::new());
    assert!(matches!(
        protocol.handle_timeout(Vec::new()),
        Ok(OPExecResult::MessageProcessedNoUpdate)
    ));
    let expired = RqTimeout { timeout_kind: TimeoutKind::Cst(SeqNo::from(3u32)) };
    assert!(matches!(protocol.handle_timeout(vec![expired]), Ok(OPExecResult::RunCst)));
}

#[test]
fn byzantine_tolerance_is_three_f_plus_one() {
    assert_eq!(ByzantineTolerance::get_n_for_f(0), 1);
    assert_eq!(ByzantineTolerance::get_n_for_f(1), 4);
    assert_eq!(ByzantineTolerance::get_n_for_f(2), 7);
    assert_eq!(ByzantineTolerance::get_n_for_f(33), 100);
    for f in 0..50usize {
        assert_eq!(ByzantineTolerance::get_n_for_f(f), 3 * f + 1);
    }
}

fn in_flight(seqs: &[u32]) -> Vec<Decision<u64, u64, u64>> {
    seqs.iter()
        .map(|seq| Decision::decision_info_from_metadata(SeqNo::from(*seq), *seq as u64))
        .collect()
}

fn seqs_of(decisions: &[Decision<u64, u64, u64>]) -> Vec<u32> {
    decisions.iter().map(|decision| decision.sequence_number().into_u32()).collect()
}

#[test]
fn clear_ahead_discards_what_lies_beyond_the_newest() {
    let kept = DecisionsAhead::ClearAhead.retain(SeqNo::from(5u32), in_flight(&[3, 8, 5, 6, 4, 9]));
    assert_eq!(seqs_of(&kept), vec![3, 5, 4]);
    let kept = DecisionsAhead::ClearAhead.retain(SeqNo::from(5u32), in_flight(&[6, 7]));
    assert!(kept.is_empty());
    let kept = DecisionsAhead::ClearAhead.retain(SeqNo::from(5u32), in_flight(&[]));
    assert!(kept.is_empty());
    let kept = DecisionsAhead::ClearAhead.retain(SeqNo::from(5u32), in_flight(&[1, 2, 5]));
    assert_eq!(seqs_of(&kept), vec![1, 2, 5]);
}

#[test]
fn ignore_keeps_what_is_in_flight() {
    let kept = DecisionsAhead::Ignore.retain(SeqNo::from(5u32), in_flight(&[3, 8, 5, 6]));
    assert_eq!(seqs_of(&kept), vec![3, 8, 5, 6]);
}

#[test]
fn poll_results_count_their_decisions() {
    let none: Poll = OPPollResult::RunCst;
    assert_eq!(none.decision_count(), 0);
    let none: Poll = OPPollResult::ReceiveMsg;
    assert_eq!(none.decision_count(), 0);
    let none: Poll = OPPollResult::RePoll;
    assert_eq!(none.decision_count(), 0);
    let none: Poll = OPPollResult::Exec(stored(1));
    assert_eq!(none.decision_count(), 0);
    let two: Poll = OPPollResult::ProgressedDecision(DecisionsAhead::ClearAhead, in_flight(&[1, 2]));
    assert_eq!(two.decision_count(), 2);
    let join = || JoinInfo::new(NodeId(4), vec![NodeId(1), NodeId(4)]);
    let joined: Poll = OPPollResult::QuorumJoined(DecisionsAhead::Ignore, None, join());
    assert_eq!(joined.decision_count(), 0);
    let joined: Poll =
        OPPollResult::QuorumJoined(DecisionsAhead::Ignore, Some(in_flight(&[1, 2, 3])), join());
    assert_eq!(joined.decision_count(), 3);
}

#[test]
fn execution_results_are_told_apart() {
    assert_ne!(ExecutionResult::Nil, ExecutionResult::BeginCheckpoint);
}

#[test]
fn failures_of_the_protocol_keep_their_kind() {
    let mut protocol = start(Vec::new());
    match protocol.process_message(stored(13)) {
        Err(error) => {
            assert_eq!(error.kind(), ErrorKind::Persistence);
            assert_eq!(error.message(), "the log is full");
        }
        Ok(other) => panic!("{:?}", other),
    }
    match protocol.process_message(stored(666)) {
        Err(error) => assert_eq!(error.kind(), ErrorKind::Protocol),
        Ok(other) => panic!("{:?}", other),
    }
}

#[test]
fn the_driver_moves_through_its_states() {
    let state = DriverState::Idle;
    let state = state.after(DriverEvent::Initialized);
    assert_eq!(state, DriverState::Normal);
    let state = state.after(DriverEvent::Progress);
    assert_eq!(state, DriverState::Normal);
    let state = state.after(DriverEvent::RunCst);
    assert_eq!(state, DriverState::OutOfDate);
    let state = state.after(DriverEvent::Progress);
    assert_eq!(state, DriverState::OutOfDate);
    let state = state.after(DriverEvent::SeqNoInstalled);
    assert_eq!(state, DriverState::Normal);
    let state = state.after(DriverEvent::QuorumJoined);
    assert_eq!(state, DriverState::Joining);
    let state = state.after(DriverEvent::JoinAcknowledged);
    assert_eq!(state, DriverState::Normal);
}

#[test]
fn a_join_takes_the_driver_from_any_state() {
    for state in
        [DriverState::Idle, DriverState::Normal, DriverState::OutOfDate, DriverState::Joining]
    {
        assert_eq!(state.after(DriverEvent::QuorumJoined), DriverState::Joining);
    }
}

#[test]
fn events_out_of_place_leave_the_state() {
    assert_eq!(DriverState::Idle.after(DriverEvent::RunCst), DriverState::Idle);
    assert_eq!(DriverState::Idle.after(DriverEvent::SeqNoInstalled), DriverState::Idle);
    assert_eq!(DriverState::Normal.after(DriverEvent::Initialized), DriverState::Normal);
    assert_eq!(DriverState::Normal.after(DriverEvent::SeqNoInstalled), DriverState::Normal);
    assert_eq!(DriverState::Normal.after(DriverEvent::JoinAcknowledged), DriverState::Normal);
    assert_eq!(DriverState::OutOfDate.after(DriverEvent::RunCst), DriverState::OutOfDate);
    assert_eq!(DriverState::OutOfDate.after(DriverEvent::JoinAcknowledged), DriverState::OutOfDate);
    assert_eq!(DriverState::Joining.after(DriverEvent::RunCst), DriverState::Joining);
    assert_eq!(DriverState::Joining.after(DriverEvent::SeqNoInstalled), DriverState::Joining);
}

#[test]
fn results_tell_the_event_for_the_state() {
    let join = || JoinInfo::new(NodeId(4), vec![NodeId(1), NodeId(4)]);
    let poll: Poll = OPPollResult::RunCst;
    assert_eq!(poll.driver_event(), DriverEvent::RunCst);
    let poll: Poll = OPPollResult::QuorumJoined(DecisionsAhead::ClearAhead, None, join());
    assert_eq!(poll.driver_event(), DriverEvent::QuorumJoined);
    let poll: Poll = OPPollResult::RePoll;
    assert_eq!(poll.driver_event(), DriverEvent::Progress);
    let poll: Poll = OPPollResult::ReceiveMsg;
    assert_eq!(poll.driver_event(), DriverEvent::Progress);
    let poll: Poll = OPPollResult::ProgressedDecision(DecisionsAhead::Ignore, in_flight(&[1]));
    assert_eq!(poll.driver_event(), DriverEvent::Progress);
    let exec: Exec = OPExecResult::RunCst;
    assert_eq!(exec.driver_event(), DriverEvent::RunCst);
    let exec: Exec = OPExecResult::QuorumJoined(DecisionsAhead::Ignore, None, join());
    assert_eq!(exec.driver_event(), DriverEvent::QuorumJoined);
    for exec in [
        OPExecResult::MessageDropped,
        OPExecResult::MessageQueued,
        OPExecResult::MessageProcessedNoUpdate,
        OPExecResult::ProgressedDecision(DecisionsAhead::Ignore, in_flight(&[2])),
    ] {
        let exec: Exec = exec;
        assert_eq!(exec.driver_event(), DriverEvent::Progress);
    }

    let mut protocol = start(vec![OPPollResult::RunCst]);
    let mut state = DriverState::Idle.after(DriverEvent::Initialized);
    state = state.after(poll_until_settled::<App, (), Scripted>(&mut protocol).driver_event());
    assert_eq!(state, DriverState::OutOfDate);
    assert!(protocol.install_seq_no(SeqNo::from(9u32)).is_ok());
    state = state.after(DriverEvent::SeqNoInstalled);
    assert_eq!(state, DriverState::Normal);
}
