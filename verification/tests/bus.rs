use mbus_events::errors::Error;
use mbus_events::mbus::{
    consumer_spec, prepare_publish, stream_spec, subscription_step, DeliveryErrorKind,
    DeliveryOutcome, PublishAction, PublishFailureKind, PublishRetryState, ProvisionRetryState,
    RetryDecision,
};
use mbus_events::membus::{BusSubscription, InMemoryBus, StoredMessage};
use mbus_events::message::{Action, Category, EventMessage, EventMeta, EventSource};
use mbus_events::retry::BackoffOptions;
use mbus_events::codec::encode_event;

fn envelope(category: Category, id: &str) -> EventMessage {
    EventMessage {
        category,
        action: Action::CreateEvent,
        target: "volume-1".to_string(),
        metadata: EventMeta {
            id: id.to_string(),
            source: EventSource {
                component: "agent-core".to_string(),
                node: "node-1".to_string(),
            },
            event_timestamp: "2024-01-02T03:04:05Z".to_string(),
            version: "v1".to_string(),
        },
    }
}

#[test]
fn stream_and_consumer_configuration() {
    let stream = stream_spec(None);
    assert_eq!(stream.name, "events-stream");
    assert_eq!(stream.subjects, "events.>");
    assert_eq!(stream.max_messages_per_subject, 1);
    assert_eq!(stream.max_bytes, 3 * 1024 * 1024);
    assert!(stream.memory_storage);
    assert_eq!(stream.num_replicas, 3);
    assert_eq!(stream_spec(Some(5)).num_replicas, 5);

    let consumer = consumer_spec("_INBOX.reply-1".to_string());
    assert_eq!(consumer.durable_name, "stats-events-consumer");
    assert!(consumer.deliver_all);
    assert_eq!(consumer.deliver_subject, "_INBOX.reply-1");
    assert_eq!(consumer.max_ack_pending, 1);
}

#[test]
fn prepared_publish_has_the_derived_subject() {
    let request = prepare_publish(&envelope(Category::Volume, "id")).unwrap();
    assert_eq!(request.subject, "events.volume.id");
    assert!(!request.payload.is_empty());
}

#[test]
fn empty_id_fails_before_any_broker_round_trip() {
    let mut bus = InMemoryBus::new(None);
    let result = bus.publish(&envelope(Category::Pool, ""));
    match result {
        Err(Error::InvalidMessageId { error_msg }) => {
            assert_eq!(error_msg, "the message id must not be empty");
        },
        _ => panic!("an empty id must be rejected with the id-validation error"),
    }
    assert_eq!(bus.log.len(), 0);
    assert_eq!(bus.next_sequence, 1);
}

#[test]
fn duplicate_id_is_stored_at_most_once() {
    let mut bus = InMemoryBus::new(None);
    let first = bus.publish(&envelope(Category::Pool, "p-1")).unwrap();
    let second = bus.publish(&envelope(Category::Pool, "p-1")).unwrap();
    assert_eq!(first, 1);
    assert_eq!(second, 2);
    assert_eq!(bus.log.len(), 1);
    assert_eq!(bus.log[0].subject, "events.pool.p-1");

    // A different id lands beside it.
    bus.publish(&envelope(Category::Pool, "p-2")).unwrap();
    assert_eq!(bus.log.len(), 2);
    // And replacing the first keeps the other.
    bus.publish(&envelope(Category::Pool, "p-1")).unwrap();
    assert_eq!(bus.log.len(), 2);
}

#[test]
fn subscription_delivers_in_publish_order() {
    let mut bus = InMemoryBus::new(None);
    bus.publish(&envelope(Category::Pool, "a")).unwrap();
    bus.publish(&envelope(Category::Volume, "b")).unwrap();
    bus.publish(&envelope(Category::Pool, "c")).unwrap();
    let mut subscription = bus.subscribe();
    assert_eq!(subscription.next().unwrap().metadata.id, "a");
    assert_eq!(subscription.next().unwrap().metadata.id, "b");
    assert_eq!(subscription.next().unwrap().metadata.id, "c");
    assert!(subscription.next().is_none());
}

#[test]
fn three_records_with_poison_in_the_middle() {
    let a = encode_event(&envelope(Category::Pool, "a"));
    let b = encode_event(&envelope(Category::Pool, "b"));
    let messages = vec![
        StoredMessage { sequence: 1, subject: "events.pool.a".to_string(), payload: a },
        StoredMessage {
            sequence: 2,
            subject: "events.pool.garbage".to_string(),
            payload: b"garbage".to_vec(),
        },
        StoredMessage { sequence: 3, subject: "events.pool.b".to_string(), payload: b },
    ];
    let mut subscription = BusSubscription { messages, cursor: 0 };
    assert_eq!(subscription.next().unwrap().metadata.id, "a");
    assert_eq!(subscription.next().unwrap().metadata.id, "b");
    assert!(subscription.next().is_none());
}

#[test]
fn end_to_end_publish_and_first_delivery() {
    let bus_replicas = None;
    let mut bus = InMemoryBus::new(bus_replicas);
    assert_eq!(bus.stream.name, "events-stream");
    assert_eq!(bus.stream.subjects, "events.>");
    let sequence = bus.publish(&envelope(Category::Pool, "p-1")).unwrap();
    assert_eq!(sequence, 1);
    let mut subscription = bus.subscribe();
    let first = subscription.next().unwrap();
    assert_eq!(first.metadata.id, "p-1");
    assert!(matches!(first.category, Category::Pool));
}

#[test]
fn publish_exhaustion_reports_the_retry_ceiling() {
    let mut state = PublishRetryState::new();
    let max_retries = 10;
    for attempt in 0..max_retries {
        let (action, log) = state.on_failure(PublishFailureKind::Other, "broker down", "payload");
        assert_eq!(log, attempt == 0);
        assert!(matches!(action, PublishAction::SleepThenRetry { .. }));
    }
    let (action, _) = state.on_failure(PublishFailureKind::Other, "broker down", "payload");
    match action {
        PublishAction::GiveUp { error: Error::PublishError { retries, payload, error } } => {
            assert_eq!(retries, max_retries);
            assert_eq!(payload, "payload");
            assert_eq!(error, "broker down");
        },
        _ => panic!("the retry budget was exhausted"),
    }
}

#[test]
fn publish_timeouts_and_missing_streams_retry_immediately() {
    let mut state = PublishRetryState::new();
    let (action, _) = state.on_failure(PublishFailureKind::TimedOut, "timed out", "p");
    assert!(matches!(action, PublishAction::RetryNow));
    let (action, _) = state.on_failure(PublishFailureKind::StreamNotFound, "no stream", "p");
    assert!(matches!(action, PublishAction::ReprovisionAndRetry));
    let (action, _) = state.on_failure(PublishFailureKind::Other, "other", "p");
    match action {
        PublishAction::SleepThenRetry { delay } => assert_eq!(delay, 5000),
        _ => panic!("other failures sleep before retrying"),
    }
}

#[test]
fn provisioning_gives_up_after_the_ceiling() {
    let mut state = ProvisionRetryState::new(BackoffOptions::new().with_max_retries(2));
    let (first, log_first) = state.on_failure();
    assert!(matches!(first, RetryDecision::SleepThenRetry { delay: 5000 }));
    assert!(log_first);
    let (second, log_second) = state.on_failure();
    assert!(matches!(second, RetryDecision::SleepThenRetry { delay: 5000 }));
    assert!(!log_second);
    let (third, _) = state.on_failure();
    assert!(matches!(third, RetryDecision::GiveUp));
}

#[test]
fn subscription_step_decisions() {
    assert!(matches!(subscription_step(None), DeliveryOutcome::End));
    assert!(matches!(
        subscription_step(Some(Err(DeliveryErrorKind::ConsumerDeleted))),
        DeliveryOutcome::Skip
    ));
    assert!(matches!(
        subscription_step(Some(Err(DeliveryErrorKind::MissingHeartbeat))),
        DeliveryOutcome::Skip
    ));
    assert!(matches!(
        subscription_step(Some(Ok(b"junk".to_vec()))),
        DeliveryOutcome::Skip
    ));
    let payload = encode_event(&envelope(Category::Volume, "v-1"));
    match subscription_step(Some(Ok(payload))) {
        DeliveryOutcome::Yield { message } => assert_eq!(message.metadata.id, "v-1"),
        _ => panic!("a decodable payload is yielded"),
    }
}

#[test]
fn provisioning_is_idempotent() {
    let mut bus = InMemoryBus::new(None);
    bus.publish(&envelope(Category::Pool, "p-1")).unwrap();
    assert!(bus.get_or_create_stream().is_ok());
    assert!(bus.get_or_create_stream().is_ok());
    assert_eq!(bus.log.len(), 1);
    assert_eq!(bus.next_sequence, 2);
}
