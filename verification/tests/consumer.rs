use gpubsub_consumer::consumer::ConsumerTask;
use gpubsub_consumer::message::{PubsubMessage, ReceivedMessage, Timestamp};
use gpubsub_consumer::source::{Config, Endpoint, GSubSource, Inbound, SourceReply};

const SECOND: u64 = 1_000_000_000;

fn message(id: &str, data: &[u8]) -> PubsubMessage {
    PubsubMessage {
        data: data.to_vec(),
        message_id: id.to_string(),
        ordering_key: String::new(),
        publish_time: Some(Timestamp { seconds: 3, nanos: 4 }),
        attributes: vec![],
    }
}

fn received(ack: &str, id: &str, data: &[u8]) -> ReceivedMessage {
    ReceivedMessage { ack_id: ack.to_string(), message: Some(message(id, data)) }
}

fn task(deadline: u64) -> ConsumerTask {
    ConsumerTask::new("client".to_string(), "projects/p/subscriptions/s".to_string(), deadline, 0)
}

fn connected_source() -> GSubSource {
    let mut source = GSubSource::new(
        Config {
            connect_timeout: SECOND,
            ack_deadline: 10 * SECOND,
            subscription_id: "projects/p/subscriptions/s".to_string(),
            endpoint: "https://pubsub.googleapis.com".to_string(),
            skip_authentication: false,
        },
        Endpoint { scheme: "https".to_string(), host: Some("pubsub.googleapis.com".to_string()) },
        "client".to_string(),
    );
    source.connect(128);
    source
}

#[test]
fn the_opening_request_binds_the_subscription() {
    let request = task(10 * SECOND).opening_request(128);
    assert_eq!(request.subscription, "projects/p/subscriptions/s");
    assert_eq!(request.client_id, "client");
    assert_eq!(request.stream_ack_deadline_seconds, 10);
    assert_eq!(request.max_outstanding_messages, 128);
    assert_eq!(request.max_outstanding_bytes, 0);
    assert!(request.ack_ids.is_empty());
    assert!(request.modify_deadline_seconds.is_empty());
    assert!(request.modify_deadline_ack_ids.is_empty());
}

#[test]
fn the_stream_ack_deadline_is_in_whole_seconds() {
    assert_eq!(task(5 * SECOND + 999_999_999).opening_request(1).stream_ack_deadline_seconds, 5);
    assert_eq!(task(999_999_999).opening_request(1).stream_ack_deadline_seconds, 0);
    assert_eq!(
        task(2_147_483_647 * SECOND).opening_request(1).stream_ack_deadline_seconds,
        2_147_483_647
    );
}

#[test]
fn a_deadline_that_does_not_fit_falls_back_to_ten_seconds() {
    assert_eq!(task(2_147_483_648 * SECOND).opening_request(1).stream_ack_deadline_seconds, 10);
    assert_eq!(task(u64::MAX).opening_request(1).stream_ack_deadline_seconds, 10);
}

#[test]
fn a_queue_size_that_does_not_fit_falls_back_to_128() {
    assert_eq!(task(SECOND).opening_request(i64::MAX as usize).max_outstanding_messages, i64::MAX);
    if usize::MAX as u128 > i64::MAX as u128 {
        assert_eq!(task(SECOND).opening_request(usize::MAX).max_outstanding_messages, 128);
    }
}

#[test]
fn happy_path() {
    let mut task = task(10 * SECOND);
    let source = connected_source();

    let delivered = task.on_message(received("A", "m1", b"x"), 1);
    let (id, msg) = delivered.expect("a message is handed on");
    assert_eq!(id, 1);

    let mut pull_id: u64 = 0;
    let pulled = source.pull_data(&mut pull_id, Inbound::Message(id, msg)).expect("a reply");
    assert_eq!(pull_id, 1);
    assert!(!pulled.connection_lost);
    match pulled.reply {
        SourceReply::Data { data, meta, stream } => {
            assert_eq!(data, b"x".to_vec());
            assert_eq!(stream, Some(0));
            assert_eq!(meta.expect("metadata").gpubsub_consumer.message_id, "m1");
        }
        SourceReply::StreamFail(_) => panic!("a message was sent"),
    }

    let intent = source.ack(0, pull_id).expect("the source is connected");
    assert_eq!(intent, 1);
    let request = task.on_ack(intent).expect("the token is held");
    assert_eq!(request.ack_ids, vec!["A".to_string()]);
    assert_eq!(request.subscription, "");
    assert_eq!(request.client_id, "client");
    assert_eq!(request.stream_ack_deadline_seconds, 0);
    assert_eq!(request.max_outstanding_messages, 0);
    assert_eq!(request.max_outstanding_bytes, 0);
    assert!(request.modify_deadline_seconds.is_empty());
    assert!(request.modify_deadline_ack_ids.is_empty());

    // Exactly one request: the token is gone.
    assert!(task.on_ack(intent).is_none());
}

#[test]
fn unknown_ack() {
    let mut task = task(10 * SECOND);
    let source = connected_source();
    let intent = source.ack(0, 999);
    assert!(matches!(intent, Ok(999)));
    assert!(task.on_ack(999).is_none());
    assert_eq!(task.last_pull_id(), 0);
}

#[test]
fn pull_ids_are_consecutive_over_delivered_messages() {
    let mut task = task(10 * SECOND);
    let mut ids: Vec<u64> = vec![];
    let batch = vec![
        received("A", "m1", b"1"),
        ReceivedMessage { ack_id: "skipped".to_string(), message: None },
        received("B", "m2", b"2"),
        received("C", "m3", b"3"),
        ReceivedMessage { ack_id: "skipped too".to_string(), message: None },
        received("D", "m4", b"4"),
    ];
    for r in batch {
        if let Some((id, _)) = task.on_message(r, 7) {
            ids.push(id);
        }
    }
    assert_eq!(ids, vec![1, 2, 3, 4]);
    assert_eq!(task.last_pull_id(), 4);
}

#[test]
fn an_element_without_a_message_changes_nothing() {
    let mut task = task(10 * SECOND);
    let nothing = task.on_message(ReceivedMessage { ack_id: "A".to_string(), message: None }, 1);
    assert!(nothing.is_none());
    assert_eq!(task.last_pull_id(), 0);
    assert!(task.on_ack(1).is_none());
}

#[test]
fn a_new_task_has_given_out_no_pull_id() {
    assert_eq!(task(SECOND).last_pull_id(), 0);
}

#[test]
fn the_message_is_handed_on_unchanged() {
    let mut task = task(10 * SECOND);
    let mut sent = message("m9", b"payload");
    sent.ordering_key = "key".to_string();
    sent.attributes = vec![("a".to_string(), "b".to_string())];
    let (id, got) = task
        .on_message(ReceivedMessage { ack_id: "T".to_string(), message: Some(sent) }, 0)
        .expect("a message is handed on");
    assert_eq!(id, 1);
    assert_eq!(got.data, b"payload".to_vec());
    assert_eq!(got.message_id, "m9");
    assert_eq!(got.ordering_key, "key");
    assert_eq!(got.publish_time, Some(Timestamp { seconds: 3, nanos: 4 }));
    assert_eq!(got.attributes, vec![("a".to_string(), "b".to_string())]);
}

#[test]
fn acks_may_come_in_any_order() {
    let mut task = task(10 * SECOND);
    task.on_message(received("A", "m1", b"1"), 0);
    task.on_message(received("B", "m2", b"2"), 0);
    task.on_message(received("C", "m3", b"3"), 0);
    assert_eq!(task.on_ack(3).expect("held").ack_ids, vec!["C".to_string()]);
    assert_eq!(task.on_ack(1).expect("held").ack_ids, vec!["A".to_string()]);
    assert_eq!(task.on_ack(2).expect("held").ack_ids, vec!["B".to_string()]);
}

#[test]
fn an_ack_within_the_deadline_finds_its_token() {
    let mut task = task(10 * SECOND);
    task.on_message(received("A", "m1", b"1"), 9 * SECOND);
    // The next message rotates the map; the first token moves to blue.
    task.on_message(received("B", "m2", b"2"), 10 * SECOND);
    task.on_message(received("C", "m3", b"3"), 18 * SECOND);
    assert_eq!(task.on_ack(1).expect("held").ack_ids, vec!["A".to_string()]);
}

#[test]
fn an_ack_after_two_rotations_finds_nothing() {
    let mut task = task(SECOND);
    task.on_message(received("A", "m1", b"1"), 0);
    task.on_message(received("B", "m2", b"2"), 2 * SECOND);
    task.on_message(received("C", "m3", b"3"), 4 * SECOND);
    assert!(task.on_ack(1).is_none());
    assert!(task.on_ack(2).is_some());
}

#[test]
fn only_the_opening_request_names_a_subscription() {
    let mut task = task(10 * SECOND);
    assert!(!task.opening_request(128).subscription.is_empty());
    task.on_message(received("A", "m1", b"1"), 0);
    task.on_message(received("B", "m2", b"2"), 0);
    assert!(task.on_ack(1).expect("held").subscription.is_empty());
    assert!(task.on_ack(2).expect("held").subscription.is_empty());
}

#[test]
fn backpressure_limits_are_the_queue_size() {
    let mut source = connected_source();
    let plan = source.connect(64);
    assert_eq!(plan.message_capacity, 64);
    assert_eq!(plan.ack_capacity, 64);
    let task = ConsumerTask::new(plan.client_id, plan.subscription_id, plan.ack_deadline_ns, 0);
    assert_eq!(task.opening_request(plan.message_capacity).max_outstanding_messages, 64);
}
