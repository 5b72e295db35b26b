use std::cell::RefCell;
use std::rc::Rc;

use ene_kafka::consumers::consumer::{
    advance, offset_to_commit, CommitMode, ConsumerAction, ConsumerEvent, ConsumerNotice,
    ConsumerState, KafkaConsumer, MessagePosition, Transition,
};
use ene_kafka::consumers::rdkafka_impl::consumer_config;
use ene_kafka::dispatchers::CloudEventDispatcher;
use ene_kafka::handlers::RegisteredHandler;
use ene_kafka::messages::cloud_events::event_record::{
    CloudEventAttributes, EventRecord, HeaderType, KafkaMessageAttributes,
};
use ene_kafka::messages::kafka_message::{ContentType, Envelope, KafkaError, KafkaTopic};
use ene_kafka::messages::rdkafka_impl::{RawHeader, ReceivedMessage};
use ene_kafka::producers::producer::prepare_record;
use rdkafka::message::{Headers as WireHeaders, OwnedHeaders};

type Action = Box<dyn Fn(&Envelope) -> Result<(), KafkaError>>;
type Log = Rc<RefCell<Vec<String>>>;

const CREATED: &str = "com.example.entity.created.v1";
const UPDATED: &str = "com.example.entity.updated.v1";
const PAYLOAD: &str = "{\"entity_id\":1755,\"organisation_id\":42}";

fn topic(name: &str) -> KafkaTopic {
    KafkaTopic { name: name.to_string(), content_type: ContentType::Json }
}

fn header(key: &str, value: &str) -> RawHeader {
    RawHeader { key: key.to_string(), value: Some(value.as_bytes().to_vec()) }
}

fn message(event_type: &str, offset: i64) -> ReceivedMessage {
    ReceivedMessage {
        topic: "test".to_string(),
        partition: 2,
        offset,
        key: Some(b"1755".to_vec()),
        payload: Some(PAYLOAD.as_bytes().to_vec()),
        headers: Some(vec![
            header("ce_specversion", "1.0"),
            header("ce_type", event_type),
            header("ce_source", "https://example.com/entity"),
            header("ce_id", "1755"),
            header("ce_time", "2024-01-01T00:00:00+00:00"),
            header("content_type", "application/json"),
        ]),
    }
}

fn position(offset: i64) -> MessagePosition {
    MessagePosition { topic: "test".to_string(), partition: 2, offset }
}

fn dlq() -> String {
    "test-dlq".to_string()
}

fn consumer(log: &Log) -> KafkaConsumer<CloudEventDispatcher<RegisteredHandler<Action>>> {
    let log = Rc::clone(log);
    let action: Action = Box::new(move |envelope: &Envelope| {
        log.borrow_mut().push(envelope.payload.clone());
        Ok(())
    });
    let dispatcher =
        CloudEventDispatcher::new(vec![RegisteredHandler::new(CREATED.to_string(), action)]);
    KafkaConsumer::new(topic("test"), topic("test-dlq"), dispatcher)
}

#[test]
fn a_subscription_that_stands_leads_to_receiving() {
    assert_eq!(
        advance(ConsumerState::Created, ConsumerEvent::SubscribeSucceeded, &dlq()),
        Transition {
            state: ConsumerState::Subscribed,
            action: ConsumerAction::Receive,
            notice: Some(ConsumerNotice::Subscribed),
        }
    );
}

#[test]
fn a_refused_subscription_is_fatal() {
    let step = advance(
        ConsumerState::Created,
        ConsumerEvent::SubscribeFailed("unknown topic".to_string()),
        &dlq(),
    );
    assert_eq!(
        step,
        Transition {
            state: ConsumerState::Failed,
            action: ConsumerAction::Stop,
            notice: Some(ConsumerNotice::SubscribeFailed("unknown topic".to_string())),
        }
    );
    let later = advance(step.state, ConsumerEvent::MessageReceived(message(CREATED, 1)), &dlq());
    assert_eq!(later.state, ConsumerState::Failed);
    assert_eq!(later.action, ConsumerAction::Stop);
}

#[test]
fn a_receive_error_is_logged_and_the_loop_receives_again() {
    for state in [ConsumerState::Subscribed, ConsumerState::Receiving] {
        assert_eq!(
            advance(state, ConsumerEvent::ReceiveFailed("timed out".to_string()), &dlq()),
            Transition {
                state: ConsumerState::Receiving,
                action: ConsumerAction::Receive,
                notice: Some(ConsumerNotice::ReceiveFailed("timed out".to_string())),
            }
        );
    }
}

#[test]
fn a_received_message_goes_to_the_dispatcher() {
    for state in [ConsumerState::Subscribed, ConsumerState::Receiving] {
        assert_eq!(
            advance(state, ConsumerEvent::MessageReceived(message(CREATED, 5)), &dlq()),
            Transition {
                state: ConsumerState::Dispatching(message(CREATED, 5)),
                action: ConsumerAction::Dispatch,
                notice: None,
            }
        );
    }
}

#[test]
fn a_dispatched_message_is_committed_without_a_dead_letter() {
    assert_eq!(
        advance(
            ConsumerState::Dispatching(message(CREATED, 5)),
            ConsumerEvent::DispatchSucceeded,
            &dlq()
        ),
        Transition {
            state: ConsumerState::CommittingOffset(position(5)),
            action: ConsumerAction::Commit(position(5), CommitMode::Async),
            notice: None,
        }
    );
}

#[test]
fn a_failed_dispatch_sends_the_message_to_the_dead_letter_topic() {
    let error = KafkaError::NoHandler(UPDATED.to_string());
    let step = advance(
        ConsumerState::Dispatching(message(UPDATED, 9)),
        ConsumerEvent::DispatchFailed(error.clone()),
        &dlq(),
    );
    let incoming = message(UPDATED, 9);
    assert_eq!(
        step,
        Transition {
            state: ConsumerState::DeadLettering(position(9)),
            action: ConsumerAction::SendDeadLetter(ReceivedMessage {
                topic: "test-dlq".to_string(),
                ..incoming
            }),
            notice: Some(ConsumerNotice::DispatchFailed(error)),
        }
    );
}

#[test]
fn the_offset_is_committed_whether_or_not_the_dead_letter_was_sent() {
    assert_eq!(
        advance(ConsumerState::DeadLettering(position(9)), ConsumerEvent::DeadLetterSent, &dlq()),
        Transition {
            state: ConsumerState::CommittingOffset(position(9)),
            action: ConsumerAction::Commit(position(9), CommitMode::Async),
            notice: Some(ConsumerNotice::DeadLetterSent),
        }
    );
    let error = KafkaError::Delivery("broker down".to_string());
    assert_eq!(
        advance(
            ConsumerState::DeadLettering(position(9)),
            ConsumerEvent::DeadLetterFailed(error.clone()),
            &dlq()
        ),
        Transition {
            state: ConsumerState::CommittingOffset(position(9)),
            action: ConsumerAction::Commit(position(9), CommitMode::Async),
            notice: Some(ConsumerNotice::DeadLetterFailed(error)),
        }
    );
}

#[test]
fn the_loop_receives_again_whether_or_not_the_commit_succeeded() {
    assert_eq!(
        advance(ConsumerState::CommittingOffset(position(9)), ConsumerEvent::CommitSucceeded, &dlq()),
        Transition { state: ConsumerState::Receiving, action: ConsumerAction::Receive, notice: None }
    );
    assert_eq!(
        advance(
            ConsumerState::CommittingOffset(position(9)),
            ConsumerEvent::CommitFailed("rebalancing".to_string()),
            &dlq()
        ),
        Transition {
            state: ConsumerState::Receiving,
            action: ConsumerAction::Receive,
            notice: Some(ConsumerNotice::CommitFailed("rebalancing".to_string())),
        }
    );
}

#[test]
fn an_event_out_of_turn_changes_nothing() {
    assert_eq!(
        advance(ConsumerState::Receiving, ConsumerEvent::CommitSucceeded, &dlq()),
        Transition {
            state: ConsumerState::Receiving,
            action: ConsumerAction::Nothing,
            notice: Some(ConsumerNotice::UnexpectedEvent),
        }
    );
    assert_eq!(
        advance(
            ConsumerState::Dispatching(message(CREATED, 1)),
            ConsumerEvent::SubscribeSucceeded,
            &dlq()
        ),
        Transition {
            state: ConsumerState::Dispatching(message(CREATED, 1)),
            action: ConsumerAction::Nothing,
            notice: Some(ConsumerNotice::UnexpectedEvent),
        }
    );
    assert_eq!(
        advance(ConsumerState::Created, ConsumerEvent::DeadLetterSent, &dlq()).state,
        ConsumerState::Created
    );
}

#[test]
fn the_offset_to_commit_is_the_one_behind_the_message() {
    assert_eq!(offset_to_commit(&position(41)), Some(42));
    assert_eq!(offset_to_commit(&position(0)), Some(1));
    assert_eq!(offset_to_commit(&position(-1)), Some(0));
    assert_eq!(offset_to_commit(&position(i64::MAX - 1)), Some(i64::MAX));
    assert_eq!(offset_to_commit(&position(i64::MAX)), None);
}

#[test]
fn a_position_copy_is_the_same_position() {
    assert_eq!(position(4).duplicate(), position(4));
}

#[test]
fn a_consumer_starts_by_subscribing_to_its_topic() {
    let log: Log = Rc::new(RefCell::new(Vec::new()));
    let consumer = consumer(&log);
    assert_eq!(consumer.state, ConsumerState::Created);
    assert_eq!(consumer.start(), ConsumerAction::Subscribe("test".to_string()));
}

#[test]
fn a_published_event_with_a_matching_handler_is_handled_and_committed() {
    let log: Log = Rc::new(RefCell::new(Vec::new()));
    let mut consumer = consumer(&log);
    assert_eq!(
        consumer.on_event(ConsumerEvent::SubscribeSucceeded),
        (ConsumerAction::Receive, Some(ConsumerNotice::Subscribed))
    );
    assert_eq!(
        consumer.on_event(ConsumerEvent::MessageReceived(message(CREATED, 5))),
        (ConsumerAction::Commit(position(5), CommitMode::Async), None)
    );
    assert_eq!(*log.borrow(), vec![PAYLOAD.to_string()]);
    assert_eq!(consumer.state, ConsumerState::CommittingOffset(position(5)));
    assert_eq!(consumer.on_event(ConsumerEvent::CommitSucceeded), (ConsumerAction::Receive, None));
    assert_eq!(consumer.state, ConsumerState::Receiving);
}

#[test]
fn an_event_without_a_handler_goes_to_the_dead_letter_topic_and_is_committed() {
    let log: Log = Rc::new(RefCell::new(Vec::new()));
    let mut consumer = consumer(&log);
    consumer.on_event(ConsumerEvent::SubscribeSucceeded);
    let incoming = message(UPDATED, 6);
    let (action, notice) = consumer.on_event(ConsumerEvent::MessageReceived(message(UPDATED, 6)));
    assert_eq!(
        action,
        ConsumerAction::SendDeadLetter(ReceivedMessage { topic: "test-dlq".to_string(), ..incoming })
    );
    assert_eq!(
        notice,
        Some(ConsumerNotice::DispatchFailed(KafkaError::NoHandler(UPDATED.to_string())))
    );
    assert!(log.borrow().is_empty());
    assert_eq!(consumer.state, ConsumerState::DeadLettering(position(6)));
    assert_eq!(
        consumer.on_event(ConsumerEvent::DeadLetterSent),
        (ConsumerAction::Commit(position(6), CommitMode::Async), Some(ConsumerNotice::DeadLetterSent))
    );
    assert_eq!(consumer.on_event(ConsumerEvent::CommitSucceeded), (ConsumerAction::Receive, None));
}

#[test]
fn a_failed_dead_letter_does_not_stop_the_consumer() {
    let log: Log = Rc::new(RefCell::new(Vec::new()));
    let mut consumer = consumer(&log);
    consumer.on_event(ConsumerEvent::SubscribeSucceeded);
    consumer.on_event(ConsumerEvent::MessageReceived(message(UPDATED, 6)));
    let error = KafkaError::Delivery("no such topic".to_string());
    assert_eq!(
        consumer.on_event(ConsumerEvent::DeadLetterFailed(error.clone())),
        (ConsumerAction::Commit(position(6), CommitMode::Async), Some(ConsumerNotice::DeadLetterFailed(error)))
    );
    assert_eq!(
        consumer.on_event(ConsumerEvent::CommitFailed("later".to_string())),
        (ConsumerAction::Receive, Some(ConsumerNotice::CommitFailed("later".to_string())))
    );
    assert_eq!(
        consumer.on_event(ConsumerEvent::MessageReceived(message(CREATED, 7))),
        (ConsumerAction::Commit(position(7), CommitMode::Async), None)
    );
    assert_eq!(*log.borrow(), vec![PAYLOAD.to_string()]);
}

#[test]
fn a_consumer_whose_subscription_was_refused_stops() {
    let log: Log = Rc::new(RefCell::new(Vec::new()));
    let mut consumer = consumer(&log);
    assert_eq!(
        consumer.on_event(ConsumerEvent::SubscribeFailed("denied".to_string())),
        (ConsumerAction::Stop, Some(ConsumerNotice::SubscribeFailed("denied".to_string())))
    );
    assert_eq!(consumer.state, ConsumerState::Failed);
    assert_eq!(
        consumer.on_event(ConsumerEvent::MessageReceived(message(CREATED, 1))).0,
        ConsumerAction::Stop
    );
    assert!(log.borrow().is_empty());
}

#[test]
fn the_consumer_configuration_holds_its_four_parameters() {
    let config = consumer_config("test-group", "localhost:9092");
    assert_eq!(config.get("group.id"), Some("test-group"));
    assert_eq!(config.get("bootstrap.servers"), Some("localhost:9092"));
    assert_eq!(config.get("enable.partition.eof"), Some("false"));
    assert_eq!(config.get("session.timeout.ms"), Some("6000"));
    assert_eq!(config.config_map().len(), 4);
}

fn entity_ids(payload: &str) -> Option<(i64, i64)> {
    let body: serde_json::Value = serde_json::from_str(payload).ok()?;
    Some((body.get("entity_id")?.as_i64()?, body.get("organisation_id")?.as_i64()?))
}

fn copied(list: &OwnedHeaders) -> Vec<RawHeader> {
    (0..list.count())
        .map(|index| {
            let header = list.get(index);
            RawHeader { key: header.key.to_string(), value: header.value.map(|bytes| bytes.to_vec()) }
        })
        .collect()
}

fn published(event_type: &str) -> ReceivedMessage {
    let record = EventRecord {
        message: KafkaMessageAttributes {
            topic: "test".to_string(),
            serde: ContentType::Json,
            headers: HeaderType::CloudEvent,
        },
        event: CloudEventAttributes::new(
            "application/json".to_string(),
            event_type.to_string(),
            "https://example.com/docs/cloudevents/entity".to_string(),
        ),
        key: "1755".to_string(),
        id: "1755".to_string(),
        time: "2024-05-01T10:00:00+00:00".to_string(),
        payload: PAYLOAD.to_string(),
    };
    let sent = prepare_record(&record).unwrap();
    ReceivedMessage {
        topic: sent.topic,
        partition: 0,
        offset: 41,
        key: Some(sent.key),
        payload: Some(sent.payload),
        headers: Some(copied(&sent.headers)),
    }
}

#[test]
fn end_to_end_a_created_event_reaches_its_handler_and_no_dead_letter_is_sent() {
    let seen: Rc<RefCell<Vec<(i64, i64)>>> = Rc::new(RefCell::new(Vec::new()));
    let sink = Rc::clone(&seen);
    let action: Action = Box::new(move |envelope: &Envelope| {
        let ids = entity_ids(&envelope.payload)
            .ok_or(KafkaError::Deserialization("not an entity".to_string()))?;
        sink.borrow_mut().push(ids);
        Ok(())
    });
    let dispatcher =
        CloudEventDispatcher::new(vec![RegisteredHandler::new(CREATED.to_string(), action)]);
    let mut consumer = KafkaConsumer::new(topic("test"), topic("test-dlq"), dispatcher);
    assert_eq!(consumer.start(), ConsumerAction::Subscribe("test".to_string()));
    assert_eq!(consumer.on_event(ConsumerEvent::SubscribeSucceeded).0, ConsumerAction::Receive);
    let committed = MessagePosition { topic: "test".to_string(), partition: 0, offset: 41 };
    assert_eq!(
        consumer.on_event(ConsumerEvent::MessageReceived(published(CREATED))),
        (ConsumerAction::Commit(committed, CommitMode::Async), None)
    );
    assert_eq!(*seen.borrow(), vec![(1755, 42)]);
    assert_eq!(consumer.on_event(ConsumerEvent::CommitSucceeded), (ConsumerAction::Receive, None));
}

#[test]
fn end_to_end_an_updated_event_is_rerouted_unchanged_to_the_dead_letter_topic() {
    let log: Log = Rc::new(RefCell::new(Vec::new()));
    let mut consumer = consumer(&log);
    consumer.on_event(ConsumerEvent::SubscribeSucceeded);
    let incoming = published(UPDATED);
    let (action, notice) = consumer.on_event(ConsumerEvent::MessageReceived(published(UPDATED)));
    assert_eq!(
        notice,
        Some(ConsumerNotice::DispatchFailed(KafkaError::NoHandler(UPDATED.to_string())))
    );
    match action {
        ConsumerAction::SendDeadLetter(letter) => {
            assert_eq!(letter.topic, "test-dlq");
            assert_eq!(letter.key, incoming.key);
            assert_eq!(letter.payload, incoming.payload);
            assert_eq!(letter.headers, incoming.headers);
            let record = prepare_record(&letter).unwrap();
            assert_eq!(record.topic, "test-dlq");
            assert_eq!(record.payload, PAYLOAD.as_bytes().to_vec());
        }
        other => panic!("expected a dead letter, got {:?}", other),
    }
    assert!(log.borrow().is_empty());
    let committed = MessagePosition { topic: "test".to_string(), partition: 0, offset: 41 };
    assert_eq!(
        consumer.on_event(ConsumerEvent::DeadLetterSent),
        (ConsumerAction::Commit(committed, CommitMode::Async), Some(ConsumerNotice::DeadLetterSent))
    );
}
