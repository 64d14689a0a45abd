//! The values that travel between the service, the consumer task and the
//! pipeline, each with its mathematical view.

use vstd::prelude::*;

verus! {

/// A point in time as the service writes it: seconds and nanoseconds since
/// the epoch.
#[derive(Clone, Copy, Debug, PartialEq, Eq)]
pub struct Timestamp {
    pub seconds: i64,
    pub nanos: i32,
}

/// A message as the service delivers it.
#[derive(Clone, Debug)]
pub struct PubsubMessage {
    pub data: Vec<u8>,
    pub message_id: String,
    pub ordering_key: String,
    pub publish_time: Option<Timestamp>,
    pub attributes: Vec<(String, String)>,
}

/// What a [`PubsubMessage`] holds.
pub struct MessageView {
    pub data: Seq<u8>,
    pub message_id: Seq<char>,
    pub ordering_key: Seq<char>,
    pub publish_time: Option<Timestamp>,
    pub attributes: Seq<(Seq<char>, Seq<char>)>,
}

impl View for PubsubMessage {
    type V = MessageView;

    open spec fn view(&self) -> MessageView {
        MessageView {
            data: self.data@,
            message_id: self.message_id@,
            ordering_key: self.ordering_key@,
            publish_time: self.publish_time,
            attributes: self.attributes.deep_view(),
        }
    }
}

/// One element of an inbound batch: the ack token and, where the service
/// sent one, the message.
#[derive(Clone, Debug)]
pub struct ReceivedMessage {
    pub ack_id: String,
    pub message: Option<PubsubMessage>,
}

/// A request on the outbound half of the streaming pull.
#[derive(Clone, Debug)]
pub struct StreamingPullRequest {
    pub subscription: String,
    pub ack_ids: Vec<String>,
    pub modify_deadline_seconds: Vec<i32>,
    pub modify_deadline_ack_ids: Vec<String>,
    pub stream_ack_deadline_seconds: i32,
    pub client_id: String,
    pub max_outstanding_messages: i64,
    pub max_outstanding_bytes: i64,
}

/// What a [`StreamingPullRequest`] holds.
pub struct RequestView {
    pub subscription: Seq<char>,
    pub ack_ids: Seq<Seq<char>>,
    pub modify_deadline_seconds: Seq<i32>,
    pub modify_deadline_ack_ids: Seq<Seq<char>>,
    pub stream_ack_deadline_seconds: i32,
    pub client_id: Seq<char>,
    pub max_outstanding_messages: i64,
    pub max_outstanding_bytes: i64,
}

impl View for StreamingPullRequest {
    type V = RequestView;

    open spec fn view(&self) -> RequestView {
        RequestView {
            subscription: self.subscription@,
            ack_ids: self.ack_ids.deep_view(),
            modify_deadline_seconds: self.modify_deadline_seconds@,
            modify_deadline_ack_ids: self.modify_deadline_ack_ids.deep_view(),
            stream_ack_deadline_seconds: self.stream_ack_deadline_seconds,
            client_id: self.client_id@,
            max_outstanding_messages: self.max_outstanding_messages,
            max_outstanding_bytes: self.max_outstanding_bytes,
        }
    }
}

} // verus!
