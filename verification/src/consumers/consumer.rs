//! The consumer loop as a state machine. Whoever drives the loop performs
//! the action that a transition asks for and reports what came of it; the
//! transition decides everything else.

use vstd::prelude::*;
use crate::dispatchers::EventDispatcher;
use crate::messages::kafka_message::{KafkaError, KafkaTopic};
use crate::messages::rdkafka_impl::ReceivedMessage;

verus! {

/// Where a message stood in the log: what a commit refers to.
#[derive(Debug, PartialEq, Eq)]
pub struct MessagePosition {
    pub topic: String,
    pub partition: i32,
    pub offset: i64,
}

impl MessagePosition {
    /// A copy of this position.
    pub fn duplicate(&self) -> (copy: MessagePosition)
        ensures
            copy == *self,
    {
        MessagePosition { topic: self.topic.clone(), partition: self.partition, offset: self.offset }
    }
}

/// Whether a commit waits for the broker's answer.
#[derive(Debug, Clone, Copy, PartialEq, Eq, Structural)]
pub enum CommitMode {
    /// The commit returns once the broker has answered.
    Sync,
    /// The commit is handed over and not waited for.
    Async,
}

/// The offset that a commit for a message at `position` names: the one
/// behind the message, where the next message will stand.
pub open spec fn next_offset(position: MessagePosition) -> Option<i64> {
    if position.offset < i64::MAX {
        Some((position.offset + 1) as i64)
    } else {
        None
    }
}

/// The offset to commit for the message at `position`, if there is one:
/// behind the last offset that can be written there is none.
pub fn offset_to_commit(position: &MessagePosition) -> (next: Option<i64>)
    ensures
        next == next_offset(*position),
{
    if position.offset < i64::MAX {
        Some(position.offset + 1)
    } else {
        None
    }
}

/// The position of a received message.
pub open spec fn position_of(message: ReceivedMessage) -> MessagePosition {
    MessagePosition { topic: message.topic, partition: message.partition, offset: message.offset }
}

/// The dead letter for a message: the same key, payload, headers and
/// position under the dead-letter topic.
pub open spec fn dead_letter(message: ReceivedMessage, dlq_topic: String) -> ReceivedMessage {
    ReceivedMessage {
        topic: dlq_topic,
        partition: message.partition,
        offset: message.offset,
        key: message.key,
        payload: message.payload,
        headers: message.headers,
    }
}

/// The phases of a consumer.
#[derive(Debug, PartialEq, Eq)]
pub enum ConsumerState {
    /// Nothing has happened yet; the subscription is being asked for.
    Created,
    /// The subscription stands; the first message is awaited.
    Subscribed,
    /// The next message is awaited.
    Receiving,
    /// A message is with the dispatcher.
    Dispatching(ReceivedMessage),
    /// Dispatch failed and the dead letter is on its way; the position is
    /// that of the message that failed.
    DeadLettering(MessagePosition),
    /// The offset of the message at this position is being committed.
    CommittingOffset(MessagePosition),
    /// The subscription was refused: the consumer cannot proceed.
    Failed,
}

/// What can happen to a consumer.
#[derive(Debug, PartialEq, Eq)]
pub enum ConsumerEvent {
    SubscribeSucceeded,
    SubscribeFailed(String),
    MessageReceived(ReceivedMessage),
    ReceiveFailed(String),
    DispatchSucceeded,
    DispatchFailed(KafkaError),
    DeadLetterSent,
    DeadLetterFailed(KafkaError),
    CommitSucceeded,
    CommitFailed(String),
}

/// What the driver of the loop is asked to do.
#[derive(Debug, PartialEq, Eq)]
pub enum ConsumerAction {
    /// Subscribe to this one topic.
    Subscribe(String),
    /// Wait for the next message or a receive error.
    Receive,
    /// Hand the message that the state holds to the dispatcher.
    Dispatch,
    /// Send this message, which already names the dead-letter topic, with
    /// the dead-letter producer.
    SendDeadLetter(ReceivedMessage),
    /// Commit the offset of the message at this position, in this mode.
    Commit(MessagePosition, CommitMode),
    /// Stop: the consumer has failed for good.
    Stop,
    /// Nothing new: the event did not belong to the current phase.
    Nothing,
}

/// What a transition wants written to the log.
#[derive(Debug, PartialEq, Eq)]
pub enum ConsumerNotice {
    Subscribed,
    SubscribeFailed(String),
    ReceiveFailed(String),
    DispatchFailed(KafkaError),
    DeadLetterSent,
    DeadLetterFailed(KafkaError),
    CommitFailed(String),
    UnexpectedEvent,
}

/// The outcome of one transition.
#[derive(Debug, PartialEq, Eq)]
pub struct Transition {
    pub state: ConsumerState,
    pub action: ConsumerAction,
    pub notice: Option<ConsumerNotice>,
}

/// Whether the event reports on the activity of the state.
pub open spec fn event_fits(state: ConsumerState, event: ConsumerEvent) -> bool {
    match state {
        ConsumerState::Created => event is SubscribeSucceeded || event is SubscribeFailed,
        ConsumerState::Subscribed | ConsumerState::Receiving => event is MessageReceived
            || event is ReceiveFailed,
        ConsumerState::Dispatching(_) => event is DispatchSucceeded || event is DispatchFailed,
        ConsumerState::DeadLettering(_) => event is DeadLetterSent || event is DeadLetterFailed,
        ConsumerState::CommittingOffset(_) => event is CommitSucceeded || event is CommitFailed,
        ConsumerState::Failed => false,
    }
}

/// The transition relation of the consumer loop.
pub open spec fn transition(state: ConsumerState, event: ConsumerEvent, dlq_topic: String) -> Transition {
    match (state, event) {
        (ConsumerState::Created, ConsumerEvent::SubscribeSucceeded) => Transition {
            state: ConsumerState::Subscribed,
            action: ConsumerAction::Receive,
            notice: Some(ConsumerNotice::Subscribed),
        },
        (ConsumerState::Created, ConsumerEvent::SubscribeFailed(reason)) => Transition {
            state: ConsumerState::Failed,
            action: ConsumerAction::Stop,
            notice: Some(ConsumerNotice::SubscribeFailed(reason)),
        },
        (ConsumerState::Subscribed, ConsumerEvent::MessageReceived(message))
        | (ConsumerState::Receiving, ConsumerEvent::MessageReceived(message)) => Transition {
            state: ConsumerState::Dispatching(message),
            action: ConsumerAction::Dispatch,
            notice: None,
        },
        (ConsumerState::Subscribed, ConsumerEvent::ReceiveFailed(reason))
        | (ConsumerState::Receiving, ConsumerEvent::ReceiveFailed(reason)) => Transition {
            state: ConsumerState::Receiving,
            action: ConsumerAction::Receive,
            notice: Some(ConsumerNotice::ReceiveFailed(reason)),
        },
        (ConsumerState::Dispatching(message), ConsumerEvent::DispatchSucceeded) => Transition {
            state: ConsumerState::CommittingOffset(position_of(message)),
            action: ConsumerAction::Commit(position_of(message), CommitMode::Async),
            notice: None,
        },
        (ConsumerState::Dispatching(message), ConsumerEvent::DispatchFailed(reason)) => Transition {
            state: ConsumerState::DeadLettering(position_of(message)),
            action: ConsumerAction::SendDeadLetter(dead_letter(message, dlq_topic)),
            notice: Some(ConsumerNotice::DispatchFailed(reason)),
        },
        (ConsumerState::DeadLettering(position), ConsumerEvent::DeadLetterSent) => Transition {
            state: ConsumerState::CommittingOffset(position),
            action: ConsumerAction::Commit(position, CommitMode::Async),
            notice: Some(ConsumerNotice::DeadLetterSent),
        },
        (ConsumerState::DeadLettering(position), ConsumerEvent::DeadLetterFailed(reason)) => Transition {
            state: ConsumerState::CommittingOffset(position),
            action: ConsumerAction::Commit(position, CommitMode::Async),
            notice: Some(ConsumerNotice::DeadLetterFailed(reason)),
        },
        (ConsumerState::CommittingOffset(_), ConsumerEvent::CommitSucceeded) => Transition {
            state: ConsumerState::Receiving,
            action: ConsumerAction::Receive,
            notice: None,
        },
        (ConsumerState::CommittingOffset(_), ConsumerEvent::CommitFailed(reason)) => Transition {
            state: ConsumerState::Receiving,
            action: ConsumerAction::Receive,
            notice: Some(ConsumerNotice::CommitFailed(reason)),
        },
        (ConsumerState::Failed, _) => Transition {
            state: ConsumerState::Failed,
            action: ConsumerAction::Stop,
            notice: Some(ConsumerNotice::UnexpectedEvent),
        },
        (state, _) => Transition {
            state,
            action: ConsumerAction::Nothing,
            notice: Some(ConsumerNotice::UnexpectedEvent),
        },
    }
}

/// Takes one step of the consumer loop: the state after the event, the
/// action that the driver now owes, and what to log.
pub fn advance(state: ConsumerState, event: ConsumerEvent, dlq_topic: &String) -> (step: Transition)
    ensures
        step == transition(state, event, *dlq_topic),
{
    match (state, event) {
        (ConsumerState::Created, ConsumerEvent::SubscribeSucceeded) => Transition {
            state: ConsumerState::Subscribed,
            action: ConsumerAction::Receive,
            notice: Some(ConsumerNotice::Subscribed),
        },
        (ConsumerState::Created, ConsumerEvent::SubscribeFailed(reason)) => Transition {
            state: ConsumerState::Failed,
            action: ConsumerAction::Stop,
            notice: Some(ConsumerNotice::SubscribeFailed(reason)),
        },
        (ConsumerState::Subscribed, ConsumerEvent::MessageReceived(message)) => Transition {
            state: ConsumerState::Dispatching(message),
            action: ConsumerAction::Dispatch,
            notice: None,
        },
        (ConsumerState::Receiving, ConsumerEvent::MessageReceived(message)) => Transition {
            state: ConsumerState::Dispatching(message),
            action: ConsumerAction::Dispatch,
            notice: None,
        },
        (ConsumerState::Subscribed, ConsumerEvent::ReceiveFailed(reason)) => Transition {
            state: ConsumerState::Receiving,
            action: ConsumerAction::Receive,
            notice: Some(ConsumerNotice::ReceiveFailed(reason)),
        },
        (ConsumerState::Receiving, ConsumerEvent::ReceiveFailed(reason)) => Transition {
            state: ConsumerState::Receiving,
            action: ConsumerAction::Receive,
            notice: Some(ConsumerNotice::ReceiveFailed(reason)),
        },
        (ConsumerState::Dispatching(message), ConsumerEvent::DispatchSucceeded) => {
            let position = MessagePosition {
                topic: message.topic,
                partition: message.partition,
                offset: message.offset,
            };
            let copy = position.duplicate();
            Transition {
                state: ConsumerState::CommittingOffset(position),
                action: ConsumerAction::Commit(copy, CommitMode::Async),
                notice: None,
            }
        },
        (ConsumerState::Dispatching(message), ConsumerEvent::DispatchFailed(reason)) => {
            let position = MessagePosition {
                topic: message.topic.clone(),
                partition: message.partition,
                offset: message.offset,
            };
            let letter = message.set_topic(dlq_topic.clone());
            Transition {
                state: ConsumerState::DeadLettering(position),
                action: ConsumerAction::SendDeadLetter(letter),
                notice: Some(ConsumerNotice::DispatchFailed(reason)),
            }
        },
        (ConsumerState::DeadLettering(position), ConsumerEvent::DeadLetterSent) => {
            let copy = position.duplicate();
            Transition {
                state: ConsumerState::CommittingOffset(position),
                action: ConsumerAction::Commit(copy, CommitMode::Async),
                notice: Some(ConsumerNotice::DeadLetterSent),
            }
        },
        (ConsumerState::DeadLettering(position), ConsumerEvent::DeadLetterFailed(reason)) => {
            let copy = position.duplicate();
            Transition {
                state: ConsumerState::CommittingOffset(position),
                action: ConsumerAction::Commit(copy, CommitMode::Async),
                notice: Some(ConsumerNotice::DeadLetterFailed(reason)),
            }
        },
        (ConsumerState::CommittingOffset(_), ConsumerEvent::CommitSucceeded) => Transition {
            state: ConsumerState::Receiving,
            action: ConsumerAction::Receive,
            notice: None,
        },
        (ConsumerState::CommittingOffset(_), ConsumerEvent::CommitFailed(reason)) => Transition {
            state: ConsumerState::Receiving,
            action: ConsumerAction::Receive,
            notice: Some(ConsumerNotice::CommitFailed(reason)),
        },
        (ConsumerState::Failed, _) => Transition {
            state: ConsumerState::Failed,
            action: ConsumerAction::Stop,
            notice: Some(ConsumerNotice::UnexpectedEvent),
        },
        (state, _) => Transition {
            state,
            action: ConsumerAction::Nothing,
            notice: Some(ConsumerNotice::UnexpectedEvent),
        },
    }
}

/// Once a message has been received its offset is committed, whatever
/// became of it: after dispatch, and after the dead letter where dispatch
/// failed, the loop commits the position of that message, and after the
/// commit, whether it succeeded or not, it receives again.
pub proof fn lemma_offset_always_advances(
    message: ReceivedMessage,
    dispatched: ConsumerEvent,
    sent: ConsumerEvent,
    committed: ConsumerEvent,
    dlq_topic: String,
)
    requires
        dispatched is DispatchSucceeded || dispatched is DispatchFailed,
        sent is DeadLetterSent || sent is DeadLetterFailed,
        committed is CommitSucceeded || committed is CommitFailed,
    ensures
        ({
            let first = transition(ConsumerState::Dispatching(message), dispatched, dlq_topic);
            let second = if dispatched is DispatchSucceeded {
                first
            } else {
                transition(first.state, sent, dlq_topic)
            };
            let third = transition(second.state, committed, dlq_topic);
            &&& dispatched is DispatchFailed ==> first.state == ConsumerState::DeadLettering(
                position_of(message),
            )
            &&& second.state == ConsumerState::CommittingOffset(position_of(message))
            &&& second.action == ConsumerAction::Commit(position_of(message), CommitMode::Async)
            &&& third.state == ConsumerState::Receiving
            &&& third.action == ConsumerAction::Receive
        }),
{
}

/// A dead letter is sent exactly when dispatch failed, and it is the
/// message that failed, unchanged but for its topic.
pub proof fn lemma_dead_letter_only_on_dispatch_failure(
    state: ConsumerState,
    event: ConsumerEvent,
    dlq_topic: String,
)
    ensures
        transition(state, event, dlq_topic).action is SendDeadLetter <==> (state is Dispatching
            && event is DispatchFailed),
        state is Dispatching && event is DispatchFailed ==> transition(
            state,
            event,
            dlq_topic,
        ).action == ConsumerAction::SendDeadLetter(dead_letter(state->Dispatching_0, dlq_topic)),
{
}

/// A refused subscription ends the consumer, and nothing revives it.
pub proof fn lemma_subscribe_failure_is_fatal(reason: String, later: ConsumerEvent, dlq_topic: String)
    ensures
        transition(ConsumerState::Created, ConsumerEvent::SubscribeFailed(reason), dlq_topic).state
            == ConsumerState::Failed,
        transition(ConsumerState::Created, ConsumerEvent::SubscribeFailed(reason), dlq_topic).action
            == ConsumerAction::Stop,
        transition(ConsumerState::Failed, later, dlq_topic).state == ConsumerState::Failed,
        transition(ConsumerState::Failed, later, dlq_topic).action == ConsumerAction::Stop,
{
}

/// Once subscribed, no event stops the loop: receive errors, dispatch
/// errors, dead-letter errors and commit errors all leave it running.
pub proof fn lemma_steady_state_never_fails(
    state: ConsumerState,
    event: ConsumerEvent,
    dlq_topic: String,
)
    requires
        !(state is Created),
        !(state is Failed),
    ensures
        !(transition(state, event, dlq_topic).state is Created),
        !(transition(state, event, dlq_topic).state is Failed),
        !(transition(state, event, dlq_topic).action is Stop),
        !(transition(state, event, dlq_topic).action is Subscribe),
{
}

/// An event that does not report on the activity of the state changes
/// nothing; one that does always asks for a new action.
pub proof fn lemma_only_fitting_events_move(
    state: ConsumerState,
    event: ConsumerEvent,
    dlq_topic: String,
)
    ensures
        !event_fits(state, event) ==> transition(state, event, dlq_topic).state == state,
        event_fits(state, event) ==> !(transition(state, event, dlq_topic).action is Nothing),
        event_fits(state, event) ==> event_fits_action(
            transition(state, event, dlq_topic).state,
            transition(state, event, dlq_topic).action,
        ),
{
}

/// Whether the action is the activity that the state waits for.
pub open spec fn event_fits_action(state: ConsumerState, action: ConsumerAction) -> bool {
    match state {
        ConsumerState::Created => action is Subscribe,
        ConsumerState::Subscribed | ConsumerState::Receiving => action is Receive,
        ConsumerState::Dispatching(_) => action is Dispatch,
        ConsumerState::DeadLettering(_) => action is SendDeadLetter,
        ConsumerState::CommittingOffset(position) => action == ConsumerAction::Commit(
            position,
            CommitMode::Async,
        ),
        ConsumerState::Failed => action is Stop,
    }
}

/// The event that reports an answer of the dispatcher.
pub open spec fn dispatch_event_of(res: Result<(), KafkaError>) -> ConsumerEvent {
    match res {
        Ok(()) => ConsumerEvent::DispatchSucceeded,
        Err(error) => ConsumerEvent::DispatchFailed(error),
    }
}

/// A consumer of one topic with its dispatcher and the topic for its
/// dead letters. It owns the dispatcher: nothing else dispatches with it.
pub struct KafkaConsumer<D> {
    pub topic: KafkaTopic,
    pub dlq_topic: KafkaTopic,
    pub dispatcher: D,
    pub state: ConsumerState,
}

impl<D: EventDispatcher<ReceivedMessage>> KafkaConsumer<D> {
    /// A consumer that has not subscribed yet.
    pub fn new(topic: KafkaTopic, dlq_topic: KafkaTopic, dispatcher: D) -> (consumer: Self)
        ensures
            consumer.topic == topic,
            consumer.dlq_topic == dlq_topic,
            consumer.dispatcher == dispatcher,
            consumer.state == ConsumerState::Created,
    {
        KafkaConsumer { topic, dlq_topic, dispatcher, state: ConsumerState::Created }
    }

    /// The first thing to do: subscribe to the consumer's one topic.
    pub fn start(&self) -> (action: ConsumerAction)
        ensures
            action == ConsumerAction::Subscribe(self.topic.name),
    {
        ConsumerAction::Subscribe(self.topic.name.clone())
    }

    /// What an event does to a consumer that dispatches by itself. It is
    /// one transition of the loop, and where that transition hands a
    /// message to the dispatcher, the dispatch and the transition on its
    /// answer follow at once.
    pub open spec fn consumed(
        &self,
        event: ConsumerEvent,
        after: Self,
        action: ConsumerAction,
        notice: Option<ConsumerNotice>,
    ) -> bool {
        let first = transition(self.state, event, self.dlq_topic.name);
        &&& after.topic == self.topic
        &&& after.dlq_topic == self.dlq_topic
        &&& match first.state {
            ConsumerState::Dispatching(message) => exists|res: Result<(), KafkaError>| #[trigger]
                self.dispatcher.dispatched(&message, after.dispatcher, res) && ({
                    let second = transition(first.state, dispatch_event_of(res), self.dlq_topic.name);
                    after.state == second.state && action == second.action && notice
                        == second.notice
                }),
            _ => after.dispatcher == self.dispatcher && after.state == first.state && action
                == first.action && notice == first.notice,
        }
    }

    /// Takes the event in, dispatches where a message arrived, and says
    /// what to do next and what to log.
    pub fn on_event(&mut self, event: ConsumerEvent) -> (outcome: (
        ConsumerAction,
        Option<ConsumerNotice>,
    ))
        ensures
            old(self).consumed(event, *final(self), outcome.0, outcome.1),
    {
        let mut state = ConsumerState::Failed;
        std::mem::swap(&mut self.state, &mut state);
        let first = advance(state, event, &self.dlq_topic.name);
        match first.state {
            ConsumerState::Dispatching(message) => {
                let res = self.dispatcher.dispatch_event(&message);
                let answer = match res {
                    Ok(()) => ConsumerEvent::DispatchSucceeded,
                    Err(error) => ConsumerEvent::DispatchFailed(error),
                };
                assert(answer == dispatch_event_of(res));
                let second = advance(ConsumerState::Dispatching(message), answer, &self.dlq_topic.name);
                self.state = second.state;
                assert(old(self).dispatcher.dispatched(&message, self.dispatcher, res));
                (second.action, second.notice)
            },
            other => {
                self.state = other;
                (first.action, first.notice)
            },
        }
    }
}

} // verus!
