//! The bundle of progress events that the ordering protocol emits for one
//! sequence number.
//!
//! A decision goes through three kinds of event: its metadata becomes known,
//! messages that compose it arrive, and it completes. The kinds are ordered in
//! this precedence. A bundle is a set of events, kept sorted by precedence: no
//! event is held twice, and at most one completion is held, so that the
//! completion is always delivered last.

use vstd::prelude::*;
use vstd::laws_eq::obeys_concrete_eq;
use crate::error::{Error, ErrorKind, ErrorView};
use crate::messages::{ClientRqInfo, Digest, ShareableMessage, UpdateBatch};
use crate::sequencing::{Orderable, SeqNo};

verus! {

/// A completed decision: the requests of one sequence number, ready to execute.
#[derive(Clone, Debug, PartialEq, Eq)]
pub struct ProtocolConsensusDecision<O> {
    /// The sequence number that was decided.
    pub seq: SeqNo,
    /// The digest over the decided batch.
    pub batch_digest: Digest,
    /// What identifies each request of a client that the batch contains.
    pub contained_requests: Vec<ClientRqInfo>,
    /// The operations to execute, in order.
    pub executable_batch: UpdateBatch<O>,
}

impl<O> ProtocolConsensusDecision<O> {
    /// The completed decision of the given sequence number.
    pub fn new(
        seq: SeqNo,
        executable_batch: UpdateBatch<O>,
        client_rqs: Vec<ClientRqInfo>,
        batch_digest: Digest,
    ) -> (decision: Self)
        ensures
            decision == (ProtocolConsensusDecision {
                seq,
                batch_digest,
                contained_requests: client_rqs,
                executable_batch,
            }),
    {
        ProtocolConsensusDecision {
            seq,
            batch_digest,
            contained_requests: client_rqs,
            executable_batch,
        }
    }

    /// Takes the decision apart: sequence number, operations, request
    /// descriptions, digest.
    pub fn into(self) -> (parts: (SeqNo, UpdateBatch<O>, Vec<ClientRqInfo>, Digest))
        ensures
            parts == (self.seq, self.executable_batch, self.contained_requests, self.batch_digest),
    {
        (self.seq, self.executable_batch, self.contained_requests, self.batch_digest)
    }

    /// The operations to execute.
    pub fn update_batch(&self) -> (batch: &UpdateBatch<O>)
        ensures
            *batch == self.executable_batch,
    {
        &self.executable_batch
    }
}

impl<O> Orderable for ProtocolConsensusDecision<O> {
    open spec fn spec_sequence_number(&self) -> SeqNo {
        self.seq
    }

    fn sequence_number(&self) -> (seq: SeqNo) {
        self.seq
    }
}

/// One progress event of a decision.
#[derive(Clone, Debug, PartialEq, Eq)]
pub enum DecisionInfo<MD, P, O> {
    /// The metadata of the decision. It does not say that the decision is made.
    DecisionMetadata(MD),
    /// Messages that compose the decision.
    PartialDecisionInformation(Vec<ShareableMessage<P>>),
    /// The decision has been completed.
    DecisionDone(ProtocolConsensusDecision<O>),
}

impl<MD, P, O> DecisionInfo<MD, P, O> {
    /// The place of the event in the order of delivery: metadata before
    /// partial information before completion.
    pub open spec fn spec_precedence(&self) -> u8 {
        match self {
            DecisionInfo::DecisionMetadata(_) => 0,
            DecisionInfo::PartialDecisionInformation(_) => 1,
            DecisionInfo::DecisionDone(_) => 2,
        }
    }

    /// The place of the event in the order of delivery: metadata before
    /// partial information before completion.
    #[verifier::when_used_as_spec(spec_precedence)]
    pub fn precedence(&self) -> (rank: u8)
        ensures
            rank == self.spec_precedence(),
    {
        match self {
            DecisionInfo::DecisionMetadata(_) => 0,
            DecisionInfo::PartialDecisionInformation(_) => 1,
            DecisionInfo::DecisionDone(_) => 2,
        }
    }

    /// The one event that the given messages compose the decision.
    pub fn decision_info_from_message(message: Vec<ShareableMessage<P>>) -> (infos: Vec<Self>)
        ensures
            infos@ == seq![DecisionInfo::<MD, P, O>::PartialDecisionInformation(message)],
    {
        vec![DecisionInfo::PartialDecisionInformation(message)]
    }

    /// Two events, in this order: that the given messages compose the
    /// decision, and its metadata.
    pub fn decision_info_from_message_and_metadata(
        message: Vec<ShareableMessage<P>>,
        metadata: MD,
    ) -> (infos: Vec<Self>)
        ensures
            infos@ == seq![
                DecisionInfo::<MD, P, O>::PartialDecisionInformation(message),
                DecisionInfo::<MD, P, O>::DecisionMetadata(metadata),
            ],
    {
        let partial = DecisionInfo::PartialDecisionInformation(message);
        let metadata = DecisionInfo::DecisionMetadata(metadata);
        vec![partial, metadata]
    }
}

/// What an event says: the view of a [`DecisionInfo`].
pub enum DecisionEvent<MD, P, O> {
    /// The metadata of the decision.
    Metadata(MD),
    /// Messages that compose the decision, in their order.
    Partial(Seq<ShareableMessage<P>>),
    /// The completion of the decision.
    Done(ProtocolConsensusDecision<O>),
}

impl<MD, P, O> View for DecisionInfo<MD, P, O> {
    type V = DecisionEvent<MD, P, O>;

    open spec fn view(&self) -> DecisionEvent<MD, P, O> {
        match self {
            DecisionInfo::DecisionMetadata(metadata) => DecisionEvent::Metadata(*metadata),
            DecisionInfo::PartialDecisionInformation(messages) => DecisionEvent::Partial(
                messages@,
            ),
            DecisionInfo::DecisionDone(decision) => DecisionEvent::Done(*decision),
        }
    }
}

/// Whether a sequence of events is in the order of delivery: sorted by
/// precedence, with no event twice, and with nothing after a completion, so
/// that there is at most one completion and it is the last event.
pub open spec fn delivery_ordered<MD, P, O>(infos: Seq<DecisionInfo<MD, P, O>>) -> bool {
    &&& forall|i: int, j: int|
        0 <= i < j < infos.len() ==> (#[trigger] infos[i]).precedence() <= (
        #[trigger] infos[j]).precedence()
    &&& forall|i: int, j: int|
        0 <= i < j < infos.len() ==> (#[trigger] infos[i])@ != (#[trigger] infos[j])@
    &&& forall|i: int, j: int|
        0 <= i < j < infos.len() ==> !((#[trigger] infos[i]) is DecisionDone) || !((
        #[trigger] infos[j]) is DecisionDone)
}

/// The set of what the events of a sequence say.
pub open spec fn events_of<MD, P, O>(infos: Seq<DecisionInfo<MD, P, O>>) -> Set<
    DecisionEvent<MD, P, O>,
> {
    Set::new(
        |event: DecisionEvent<MD, P, O>|
            exists|i: int| 0 <= i < infos.len() && (#[trigger] infos[i])@ == event,
    )
}

/// What a decision holds: its sequence number and the set of its events.
#[verifier::reject_recursive_types(MD)]
#[verifier::reject_recursive_types(P)]
#[verifier::reject_recursive_types(O)]
pub struct DecisionView<MD, P, O> {
    pub seq: SeqNo,
    pub events: Set<DecisionEvent<MD, P, O>>,
}

impl<MD, P, O> DecisionView<MD, P, O> {
    /// Whether the view is that of a decision: at most one completion is
    /// held, and it is the completion of the decision's sequence number.
    pub open spec fn well_formed(self) -> bool {
        &&& forall|first: ProtocolConsensusDecision<O>, second: ProtocolConsensusDecision<O>|
            #[trigger] self.events.contains(DecisionEvent::Done(first)) && #[trigger] self.events.contains(
                DecisionEvent::Done(second),
            ) ==> first == second
        &&& forall|decision: ProtocolConsensusDecision<O>|
            #[trigger] self.events.contains(DecisionEvent::Done(decision)) ==> decision.seq
                == self.seq
    }

    /// The bundle after an event is appended: the event joins the set.
    pub open spec fn with(self, event: DecisionEvent<MD, P, O>) -> Self {
        DecisionView { seq: self.seq, events: self.events.insert(event) }
    }

    /// The bundle after another of the same sequence number is merged into
    /// it: the union of the two sets.
    pub open spec fn merged(self, other: Self) -> Self {
        DecisionView { seq: self.seq, events: self.events.union(other.events) }
    }

    /// Whether a completion may join the bundle: it is the completion of the
    /// bundle's sequence number, and the bundle holds no other.
    pub open spec fn admits(self, event: DecisionEvent<MD, P, O>) -> bool {
        event matches DecisionEvent::Done(decision) ==> {
            &&& decision.seq == self.seq
            &&& forall|held: ProtocolConsensusDecision<O>| #[trigger]
                self.events.contains(DecisionEvent::Done(held)) ==> held == decision
        }
    }

    /// Whether two bundles hold the same completion where both hold one.
    pub open spec fn completions_agree(self, other: Self) -> bool {
        forall|first: ProtocolConsensusDecision<O>, second: ProtocolConsensusDecision<O>|
            #[trigger] self.events.contains(DecisionEvent::Done(first))
                && #[trigger] other.events.contains(DecisionEvent::Done(second)) ==> first
                == second
    }

    /// After an append the decision holds the events that it held and the
    /// appended one, and no other; and it is still a decision where the
    /// appended event was admitted.
    pub proof fn lemma_append_keeps(self, event: DecisionEvent<MD, P, O>)
        ensures
            self.events.subset_of(self.with(event).events),
            self.with(event).events.contains(event),
            forall|held: DecisionEvent<MD, P, O>| #[trigger]
                self.with(event).events.contains(held) ==> held == event
                    || self.events.contains(held),
            self.with(event).seq == self.seq,
            self.well_formed() && self.admits(event) ==> self.with(event).well_formed(),
    {
    }

    /// After a merge the decision holds every event of both decisions, and
    /// no other; and it is still a decision where the two agreed on the
    /// completion.
    pub proof fn lemma_merge_unites(self, other: Self)
        ensures
            self.events.subset_of(self.merged(other).events),
            other.events.subset_of(self.merged(other).events),
            forall|event: DecisionEvent<MD, P, O>| #[trigger]
                self.merged(other).events.contains(event) ==> self.events.contains(event)
                    || other.events.contains(event),
            self.well_formed() && other.well_formed() && self.seq == other.seq
                && self.completions_agree(other) ==> self.merged(other).well_formed(),
    {
    }

    /// Merging a decision with itself changes nothing.
    pub proof fn lemma_merge_idempotent(self)
        ensures
            self.merged(self) == self,
    {
        assert(self.merged(self).events =~= self.events);
    }

    /// Merging is commutative: the two orders of merging two decisions of one
    /// sequence number give the same set of events.
    pub proof fn lemma_merge_commutative(self, other: Self)
        requires
            self.seq == other.seq,
        ensures
            self.merged(other) == other.merged(self),
    {
        assert(self.events.union(other.events) =~= other.events.union(self.events));
    }
}

/// In the order of delivery a completion is the last event, and there is no
/// other.
pub proof fn lemma_completion_is_last<MD, P, O>(infos: Seq<DecisionInfo<MD, P, O>>)
    requires
        delivery_ordered(infos),
    ensures
        forall|i: int|
            0 <= i < infos.len() && (#[trigger] infos[i]) is DecisionDone ==> i == infos.len() - 1,
{
    assert forall|i: int| 0 <= i < infos.len() && (#[trigger] infos[i]) is DecisionDone implies i
        == infos.len() - 1 by {
        if i < infos.len() - 1 {
            let last = infos.len() - 1;
            assert(infos[i].precedence() <= infos[last].precedence());
            assert(infos[last] is DecisionDone);
        }
    }
}

/// Whether an event that is held keeps another from being inserted: the two
/// say the same, or both are completions.
spec fn blocks<MD, P, O>(held: DecisionInfo<MD, P, O>, new: DecisionInfo<MD, P, O>) -> bool {
    held@ == new@ || (held is DecisionDone && new is DecisionDone)
}

/// Whether two lists of messages hold the same messages in the same order.
fn same_messages<P: PartialEq>(
    left: &Vec<ShareableMessage<P>>,
    right: &Vec<ShareableMessage<P>>,
) -> (same: bool)
    requires
        obeys_concrete_eq::<P>(),
    ensures
        same == (left@ == right@),
{
    if left.len() != right.len() {
        return false;
    }
    let mut at: usize = 0;
    while at < left.len()
        invariant
            obeys_concrete_eq::<P>(),
            left.len() == right.len(),
            at <= left.len(),
            forall|k: int| 0 <= k < at ==> left@[k] == right@[k],
        decreases left.len() - at,
    {
        if !left[at].same_as(&right[at]) {
            return false;
        }
        at += 1;
    }
    assert(left@ =~= right@);
    true
}

/// Whether an event that is held keeps another from being inserted.
fn is_blocked_by<MD: PartialEq, P: PartialEq, O>(
    new: &DecisionInfo<MD, P, O>,
    held: &DecisionInfo<MD, P, O>,
) -> (blocked: bool)
    requires
        obeys_concrete_eq::<MD>(),
        obeys_concrete_eq::<P>(),
    ensures
        blocked == blocks(*held, *new),
{
    proof {
        reveal(obeys_concrete_eq);
    }
    match (held, new) {
        (DecisionInfo::DecisionMetadata(held), DecisionInfo::DecisionMetadata(new)) => held == new,
        (
            DecisionInfo::PartialDecisionInformation(held),
            DecisionInfo::PartialDecisionInformation(new),
        ) => same_messages(held, new),
        (DecisionInfo::DecisionDone(_), DecisionInfo::DecisionDone(_)) => true,
        _ => false,
    }
}

/// The events of a sequence into which an event was put are the events of the
/// sequence and that event.
proof fn lemma_events_insert<MD, P, O>(
    infos: Seq<DecisionInfo<MD, P, O>>,
    at: int,
    info: DecisionInfo<MD, P, O>,
)
    requires
        0 <= at <= infos.len(),
    ensures
        events_of(infos.insert(at, info)) == events_of(infos).insert(info@),
{
    let after = infos.insert(at, info);
    assert forall|event: DecisionEvent<MD, P, O>|
        events_of(after).contains(event) implies events_of(infos).insert(info@).contains(
        event,
    ) by {
        let i = choose|i: int| 0 <= i < after.len() && (#[trigger] after[i])@ == event;
        if i < at {
            assert(infos[i]@ == event);
        } else if i > at {
            assert(infos[i - 1]@ == event);
        }
    }
    assert forall|event: DecisionEvent<MD, P, O>|
        events_of(infos).insert(info@).contains(event) implies events_of(after).contains(
        event,
    ) by {
        if event == info@ {
            assert(after[at]@ == event);
        } else {
            let i = choose|i: int| 0 <= i < infos.len() && (#[trigger] infos[i])@ == event;
            if i < at {
                assert(after[i]@ == event);
            } else {
                assert(after[i + 1]@ == event);
            }
        }
    }
    assert(events_of(after) =~= events_of(infos).insert(info@));
}

/// Puts an event in its place in a sequence that is in the order of delivery:
/// among the events of its kind. An event is left out where the sequence
/// holds an event that says the same.
fn insert_in_order<MD: PartialEq, P: PartialEq, O>(
    infos: &mut Vec<DecisionInfo<MD, P, O>>,
    info: DecisionInfo<MD, P, O>,
)
    requires
        obeys_concrete_eq::<MD>(),
        obeys_concrete_eq::<P>(),
        delivery_ordered(old(infos)@),
        forall|k: int|
            0 <= k < old(infos)@.len() && (#[trigger] old(infos)@[k]) is DecisionDone
                && info is DecisionDone ==> old(infos)@[k]@ == info@,
    ensures
        delivery_ordered(final(infos)@),
        events_of(final(infos)@) == events_of(old(infos)@).insert(info@),
        final(infos)@ == old(infos)@ || exists|at: int|
            0 <= at <= old(infos)@.len() && final(infos)@ == #[trigger] old(infos)@.insert(
                at,
                info,
            ),
{
    let rank = info.precedence();
    let mut at: usize = 0;
    let mut blocked = false;
    while at < infos.len() && infos[at].precedence() <= rank
        invariant
            obeys_concrete_eq::<MD>(),
            obeys_concrete_eq::<P>(),
            infos@ == old(infos)@,
            rank == info.precedence(),
            at <= infos.len(),
            forall|k: int| 0 <= k < at ==> (#[trigger] infos[k]).precedence() <= rank,
            blocked <==> exists|k: int| 0 <= k < at && blocks(#[trigger] infos[k], info),
        decreases infos.len() - at,
    {
        if is_blocked_by(&info, &infos[at]) {
            blocked = true;
        }
        at += 1;
    }
    let ghost before = infos@;
    proof {
        // Behind the place of the event, every event is of a later kind and
        // keeps nothing of this kind out.
        assert forall|k: int| at <= k < before.len() implies !blocks(
            #[trigger] before[k],
            info,
        ) by {
            assert(before[at as int].precedence() <= before[k].precedence());
        }
        assert(blocked <==> events_of(before).contains(info@)) by {
            if events_of(before).contains(info@) {
                let k = choose|k: int| 0 <= k < before.len() && (#[trigger] before[k])@ == info@;
                assert(blocks(before[k], info));
            }
            if blocked {
                let k = choose|k: int| 0 <= k < at && blocks(#[trigger] before[k], info);
                assert(before[k]@ == info@);
            }
        }
    }
    if blocked {
        proof {
            assert(events_of(before).insert(info@) =~= events_of(before));
        }
    } else {
        infos.insert(at, info);
        proof {
            let after = infos@;
            lemma_events_insert(before, at as int, info);
            assert forall|i: int, j: int| 0 <= i < j < after.len() implies {
                &&& (#[trigger] after[i]).precedence() <= (#[trigger] after[j]).precedence()
                &&& after[i]@ != after[j]@
                &&& (!(after[i] is DecisionDone) || !(after[j] is DecisionDone))
            } by {
                if j < at {
                    assert(before[i].precedence() <= before[j].precedence());
                } else if j == at {
                    assert(before[i].precedence() <= rank);
                    assert(!blocks(before[i], info));
                } else if i < at {
                    assert(before[i].precedence() <= before[j - 1].precedence());
                } else if i == at {
                    assert(before[at as int].precedence() <= before[j - 1].precedence());
                    assert(!blocks(before[j - 1], info));
                } else {
                    assert(before[i - 1].precedence() <= before[j - 1].precedence());
                }
            }
        }
    }
}

/// The progress of one decision: the events that the ordering protocol emitted
/// for one sequence number, in the order of delivery.
#[derive(Debug)]
pub struct Decision<MD, P, O> {
    seq: SeqNo,
    decision_info: Vec<DecisionInfo<MD, P, O>>,
}

impl<MD, P, O> View for Decision<MD, P, O> {
    type V = DecisionView<MD, P, O>;

    open spec fn view(&self) -> DecisionView<MD, P, O> {
        DecisionView { seq: self.spec_seq(), events: events_of(self.entries()) }
    }
}

/// Whether every completion in a sequence of events is that of the given
/// sequence number.
spec fn completes<MD, P, O>(infos: Seq<DecisionInfo<MD, P, O>>, seq: SeqNo) -> bool {
    forall|i: int|
        0 <= i < infos.len() && (#[trigger] infos[i]) is DecisionDone
            ==> infos[i]->DecisionDone_0.seq == seq
}

/// The events of a sequence in the order of delivery whose completions are of
/// one sequence number make the view of a decision.
proof fn lemma_well_formed<MD, P, O>(seq: SeqNo, infos: Seq<DecisionInfo<MD, P, O>>)
    requires
        delivery_ordered(infos),
        completes(infos, seq),
    ensures
        (DecisionView { seq, events: events_of(infos) }).well_formed(),
{
    let view = DecisionView { seq, events: events_of(infos) };
    assert forall|first: ProtocolConsensusDecision<O>, second: ProtocolConsensusDecision<O>|
        #[trigger] view.events.contains(DecisionEvent::Done(first)) && #[trigger] view.events.contains(
            DecisionEvent::Done(second),
        ) implies first == second by {
        let i = choose|i: int|
            0 <= i < infos.len() && (#[trigger] infos[i])@ == DecisionEvent::<MD, P, O>::Done(
                first,
            );
        let j = choose|j: int|
            0 <= j < infos.len() && (#[trigger] infos[j])@ == DecisionEvent::<MD, P, O>::Done(
                second,
            );
        if i < j {
            assert(!(infos[i] is DecisionDone) || !(infos[j] is DecisionDone));
        } else if j < i {
            assert(!(infos[j] is DecisionDone) || !(infos[i] is DecisionDone));
        }
    }
    assert forall|decision: ProtocolConsensusDecision<O>|
        #[trigger] view.events.contains(DecisionEvent::Done(decision)) implies decision.seq
        == seq by {
        let i = choose|i: int|
            0 <= i < infos.len() && (#[trigger] infos[i])@ == DecisionEvent::<MD, P, O>::Done(
                decision,
            );
        assert(infos[i] is DecisionDone);
    }
}

impl<MD, P, O> Decision<MD, P, O> {
    #[verifier::type_invariant]
    spec fn ordered(&self) -> bool {
        &&& delivery_ordered(self.decision_info@)
        &&& completes(self.decision_info@, self.seq)
    }

    /// The sequence number of the decision.
    pub closed spec fn spec_seq(&self) -> SeqNo {
        self.seq
    }

    /// The events of the decision, in their order of delivery.
    pub closed spec fn entries(&self) -> Seq<DecisionInfo<MD, P, O>> {
        self.decision_info@
    }

    /// The decision of the given sequence number with one event: that the
    /// given message composes it.
    pub fn decision_info_from_message(seq: SeqNo, decision: ShareableMessage<P>) -> (made: Self)
        ensures
            made@ == (DecisionView::<MD, P, O> {
                seq,
                events: set![DecisionEvent::Partial(seq![decision])],
            }),
            made.entries().len() == 1,
            made.entries()[0]@ == DecisionEvent::<MD, P, O>::Partial(seq![decision]),
    {
        let messages = vec![decision];
        assert(messages@ =~= seq![decision]);
        let made = Decision {
            seq,
            decision_info: vec![DecisionInfo::PartialDecisionInformation(messages)],
        };
        assert(made@.events =~= set![DecisionEvent::Partial(seq![decision])]) by {
            assert(made.decision_info@[0]@ == DecisionEvent::<MD, P, O>::Partial(seq![decision]));
        }
        made
    }

    /// The decision of the given sequence number with one event: its metadata.
    pub fn decision_info_from_metadata(seq: SeqNo, metadata: MD) -> (made: Self)
        ensures
            made@ == (DecisionView::<MD, P, O> {
                seq,
                events: set![DecisionEvent::Metadata(metadata)],
            }),
            made.entries() == seq![DecisionInfo::<MD, P, O>::DecisionMetadata(metadata)],
    {
        let made = Decision { seq, decision_info: vec![DecisionInfo::DecisionMetadata(metadata)] };
        assert(made@.events =~= set![DecisionEvent::Metadata(metadata)]) by {
            assert(made.decision_info@[0]@ == DecisionEvent::<MD, P, O>::Metadata(metadata));
        }
        made
    }

    /// The decision of the given sequence number with one event: that the
    /// given messages compose it.
    pub fn decision_info_from_messages(seq: SeqNo, messages: Vec<ShareableMessage<P>>) -> (made:
        Self)
        ensures
            made@ == (DecisionView::<MD, P, O> {
                seq,
                events: set![DecisionEvent::Partial(messages@)],
            }),
            made.entries() == seq![DecisionInfo::<MD, P, O>::PartialDecisionInformation(messages)],
    {
        let made = Decision {
            seq,
            decision_info: vec![DecisionInfo::PartialDecisionInformation(messages)],
        };
        assert(made@.events =~= set![DecisionEvent::Partial(messages@)]) by {
            assert(made.decision_info@[0]@ == DecisionEvent::<MD, P, O>::Partial(messages@));
        }
        made
    }

    /// The decision of the given sequence number with one event: its
    /// completion, which is that of this sequence number.
    pub fn completed_decision(seq: SeqNo, update: ProtocolConsensusDecision<O>) -> (made: Self)
        requires
            update.seq == seq,
        ensures
            made@ == (DecisionView::<MD, P, O> { seq, events: set![DecisionEvent::Done(update)] }),
            made.entries() == seq![DecisionInfo::<MD, P, O>::DecisionDone(update)],
            made@.well_formed(),
    {
        let made = Decision { seq, decision_info: vec![DecisionInfo::DecisionDone(update)] };
        assert(made@.events =~= set![DecisionEvent::Done(update)]) by {
            assert(made.decision_info@[0]@ == DecisionEvent::<MD, P, O>::Done(update));
        }
        made
    }

    /// The decision of the given sequence number with all three events: its
    /// metadata, the messages that compose it, and its completion, which is
    /// that of this sequence number.
    pub fn full_decision_info(
        seq: SeqNo,
        metadata: MD,
        messages: Vec<ShareableMessage<P>>,
        requests: ProtocolConsensusDecision<O>,
    ) -> (made: Self)
        requires
            requests.seq == seq,
        ensures
            made@ == (DecisionView::<MD, P, O> {
                seq,
                events: set![
                    DecisionEvent::Metadata(metadata),
                    DecisionEvent::Partial(messages@),
                    DecisionEvent::Done(requests),
                ],
            }),
            made.entries() == seq![
                DecisionInfo::<MD, P, O>::DecisionMetadata(metadata),
                DecisionInfo::<MD, P, O>::PartialDecisionInformation(messages),
                DecisionInfo::<MD, P, O>::DecisionDone(requests),
            ],
            made@.well_formed(),
    {
        let made = Decision {
            seq,
            decision_info: vec![
                DecisionInfo::DecisionMetadata(metadata),
                DecisionInfo::PartialDecisionInformation(messages),
                DecisionInfo::DecisionDone(requests),
            ],
        };
        assert(made@.events =~= set![
            DecisionEvent::Metadata(metadata),
            DecisionEvent::Partial(messages@),
            DecisionEvent::Done(requests),
        ]) by {
            assert(made.decision_info@[0]@ == DecisionEvent::<MD, P, O>::Metadata(metadata));
            assert(made.decision_info@[1]@ == DecisionEvent::<MD, P, O>::Partial(messages@));
            assert(made.decision_info@[2]@ == DecisionEvent::<MD, P, O>::Done(requests));
        }
        made
    }

    /// The events, in their order of delivery: sorted by precedence, none
    /// twice, a completion last. The order among the events of one kind is
    /// not fixed.
    pub fn decision_info(&self) -> (infos: &Vec<DecisionInfo<MD, P, O>>)
        ensures
            infos@ == self.entries(),
            delivery_ordered(infos@),
            self@.well_formed(),
    {
        proof {
            use_type_invariant(self);
            lemma_well_formed(self.seq, self.decision_info@);
        }
        &self.decision_info
    }

    /// Gives up the decision for its events, in their order of delivery.
    pub fn into_decision_info(self) -> (infos: Vec<DecisionInfo<MD, P, O>>)
        ensures
            infos@ == self.entries(),
            delivery_ordered(infos@),
            self@.well_formed(),
    {
        proof {
            use_type_invariant(&self);
            lemma_well_formed(self.seq, self.decision_info@);
        }
        self.decision_info
    }
}

impl<MD: PartialEq, P: PartialEq, O> Decision<MD, P, O> {
    /// Appends an event: it joins the set of the events of the decision, in
    /// its place by precedence. An event that is held is not held twice. A
    /// completion must be that of the decision's sequence number, and the one
    /// completion of the decision.
    pub fn append_decision_info(&mut self, decision_info: DecisionInfo<MD, P, O>)
        requires
            obeys_concrete_eq::<MD>(),
            obeys_concrete_eq::<P>(),
            old(self)@.admits(decision_info@),
        ensures
            final(self)@ == old(self)@.with(decision_info@),
            final(self)@.well_formed(),
            delivery_ordered(final(self).entries()),
            final(self).entries() == old(self).entries() || exists|at: int|
                0 <= at <= old(self).entries().len() && final(self).entries() == #[trigger] old(
                    self,
                ).entries().insert(at, decision_info),
    {
        proof {
            use_type_invariant(&*self);
        }
        let ghost view = self@;
        let mut infos = Vec::new();
        std::mem::swap(&mut self.decision_info, &mut infos);
        proof {
            assert(view.events == events_of(infos@));
            assert forall|k: int|
                0 <= k < infos@.len() && (#[trigger] infos@[k]) is DecisionDone
                    && decision_info is DecisionDone implies infos@[k]@ == decision_info@ by {
                let held = infos@[k]->DecisionDone_0;
                assert(infos@[k]@ == DecisionEvent::<MD, P, O>::Done(held));
                assert(view.events.contains(DecisionEvent::Done(held)));
            }
        }
        insert_in_order(&mut infos, decision_info);
        proof {
            assert(completes(infos@, self.seq));
            lemma_well_formed(self.seq, infos@);
        }
        self.decision_info = infos;
    }

    /// Merges another decision of the same sequence number into this one: the
    /// merged decision holds the events of both, each once. Where both hold a
    /// completion, it must be the same. Fails, and leaves this decision as it
    /// is, where the sequence numbers differ.
    pub fn merge_decisions(&mut self, other: Self) -> (res: Result<(), Error>)
        requires
            obeys_concrete_eq::<MD>(),
            obeys_concrete_eq::<P>(),
            old(self)@.seq == other@.seq ==> old(self)@.completions_agree(other@),
        ensures
            old(self)@.seq != other@.seq ==> res is Err && res->Err_0@ == (ErrorView {
                kind: ErrorKind::OrderProtocolDecision,
                message: "The decisions have different sequence numbers, cannot merge"@,
            }) && final(self).entries() == old(self).entries() && final(self)@ == old(self)@,
            old(self)@.seq == other@.seq ==> res is Ok && final(self)@ == old(self)@.merged(
                other@,
            ) && old(self).entries().len() <= final(self).entries().len() <= old(
                self,
            ).entries().len() + other.entries().len(),
            final(self)@.well_formed(),
            delivery_ordered(final(self).entries()),
    {
        proof {
            use_type_invariant(&*self);
            use_type_invariant(&other);
            lemma_well_formed(self.seq, self.decision_info@);
        }
        if self.seq != other.seq {
            return Err(
                Error::simple_with_msg(
                    ErrorKind::OrderProtocolDecision,
                    "The decisions have different sequence numbers, cannot merge",
                ),
            );
        }
        let ghost this = self@;
        let ghost their = other@;
        let ghost mine = self.decision_info@;
        let ghost that = other.decision_info@;
        let mut merged = Vec::new();
        std::mem::swap(&mut self.decision_info, &mut merged);
        let mut pending = other.decision_info;
        proof {
            assert(events_of(that.take(0)) =~= Set::empty());
            assert(this.events.union(Set::empty()) =~= this.events);
            assert forall|k: int, j: int|
                0 <= k < mine.len() && 0 <= j < that.len() && (#[trigger] mine[k]) is DecisionDone
                    && (#[trigger] that[j]) is DecisionDone implies mine[k]@ == that[j]@ by {
                let first = mine[k]->DecisionDone_0;
                let second = that[j]->DecisionDone_0;
                assert(mine[k]@ == DecisionEvent::<MD, P, O>::Done(first));
                assert(that[j]@ == DecisionEvent::<MD, P, O>::Done(second));
                assert(this.events.contains(DecisionEvent::Done(first)));
                assert(their.events.contains(DecisionEvent::Done(second)));
            }
        }
        while pending.len() > 0
            invariant
                obeys_concrete_eq::<MD>(),
                obeys_concrete_eq::<P>(),
                delivery_ordered(that),
                completes(that, this.seq),
                pending@.len() <= that.len(),
                pending@ == that.skip(that.len() - pending@.len()),
                delivery_ordered(merged@),
                completes(merged@, this.seq),
                mine.len() <= merged@.len() <= mine.len() + (that.len() - pending@.len()),
                forall|k: int, j: int|
                    0 <= k < merged@.len() && 0 <= j < that.len() && (
                    #[trigger] merged@[k]) is DecisionDone && (#[trigger] that[j]) is DecisionDone
                        ==> merged@[k]@ == that[j]@,
                events_of(merged@) == this.events.union(
                    events_of(that.take(that.len() - pending@.len())),
                ),
            decreases pending.len(),
        {
            let ghost done = that.len() - pending@.len();
            let info = pending.remove(0);
            proof {
                assert(info == that[done]);
            }
            insert_in_order(&mut merged, info);
            proof {
                assert(completes(merged@, this.seq));
                assert(pending@ == that.skip(done + 1));
                assert(that.take(done + 1) == that.take(done).insert(done, that[done]));
                lemma_events_insert(that.take(done), done, that[done]);
                assert(this.events.union(events_of(that.take(done))).insert(info@)
                    =~= this.events.union(events_of(that.take(done)).insert(info@)));
            }
        }
        proof {
            assert(that.take(that.len() as int) == that);
            lemma_well_formed(this.seq, merged@);
        }
        self.decision_info = merged;
        Ok(())
    }
}

impl<MD, P, O> Orderable for Decision<MD, P, O> {
    open spec fn spec_sequence_number(&self) -> SeqNo {
        self@.seq
    }

    fn sequence_number(&self) -> (seq: SeqNo) {
        self.seq
    }
}

} // verus!
