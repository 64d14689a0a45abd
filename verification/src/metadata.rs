//! The metadata that accompanies a delivered message.

use crate::message::{PubsubMessage, Timestamp};
use vstd::prelude::*;

verus! {

/// A span of time since the epoch: whole seconds and additional nanoseconds.
#[derive(Clone, Copy, Debug, PartialEq, Eq)]
pub struct SinceEpoch {
    pub secs: u64,
    pub nanos: u32,
}

impl SinceEpoch {
    /// The span in nanoseconds.
    pub open spec fn total_nanos(self) -> int {
        self.secs * 1_000_000_000 + self.nanos
    }
}

/// The fields recorded for one message.
#[derive(Clone, Debug)]
pub struct ConsumerMeta {
    pub message_id: String,
    pub ordering_key: String,
    /// Nanoseconds since the epoch.
    pub publish_time: Option<u64>,
    pub attributes: Vec<(String, String)>,
}

/// The metadata object: its one key, `gpubsub_consumer`, holds the fields.
#[derive(Clone, Debug)]
pub struct Metadata {
    pub gpubsub_consumer: ConsumerMeta,
}

/// What a [`Metadata`] holds under its key.
pub struct MetaView {
    pub message_id: Seq<char>,
    pub ordering_key: Seq<char>,
    pub publish_time: Option<u64>,
    pub attributes: Seq<(Seq<char>, Seq<char>)>,
}

impl View for Metadata {
    type V = MetaView;

    open spec fn view(&self) -> MetaView {
        MetaView {
            message_id: self.gpubsub_consumer.message_id@,
            ordering_key: self.gpubsub_consumer.ordering_key@,
            publish_time: self.gpubsub_consumer.publish_time,
            attributes: self.gpubsub_consumer.attributes.deep_view(),
        }
    }
}

/// A publish time in nanoseconds: the span itself where it fits 64 bits,
/// else 0.
pub open spec fn publish_nanos(t: SinceEpoch) -> u64 {
    if t.total_nanos() <= u64::MAX {
        t.total_nanos() as u64
    } else {
        0
    }
}

/// The metadata of a message with these fields.
pub open spec fn metadata_of(
    id: Seq<char>,
    ordering_key: Seq<char>,
    publish_time: Option<SinceEpoch>,
    attributes: Seq<(Seq<char>, Seq<char>)>,
) -> MetaView {
    MetaView {
        message_id: id,
        ordering_key,
        publish_time: match publish_time {
            Some(t) => Some(publish_nanos(t)),
            None => None,
        },
        attributes,
    }
}

/// The span that a service timestamp stands for: a negative part counts
/// as 0.
pub open spec fn span_of(t: Timestamp) -> SinceEpoch {
    SinceEpoch {
        secs: if t.seconds >= 0 {
            t.seconds as u64
        } else {
            0
        },
        nanos: if t.nanos >= 0 {
            t.nanos as u32
        } else {
            0
        },
    }
}

/// The span of a message's publish time, where it has one.
pub open spec fn publish_span(t: Option<Timestamp>) -> Option<SinceEpoch> {
    match t {
        Some(t) => Some(span_of(t)),
        None => None,
    }
}

/// Builds the metadata object from a message's fields.
pub fn pubsub_metadata(
    id: String,
    ordering_key: String,
    publish_time: Option<SinceEpoch>,
    attributes: Vec<(String, String)>,
) -> (meta: Metadata)
    ensures
        meta@ == metadata_of(id@, ordering_key@, publish_time, attributes.deep_view()),
{
    let publish_time = match publish_time {
        Some(t) => {
            let total: u128 = t.secs as u128 * 1_000_000_000u128 + t.nanos as u128;
            if total <= 18446744073709551615u128 {
                Some(total as u64)
            } else {
                Some(0u64)
            }
        },
        None => None,
    };
    Metadata {
        gpubsub_consumer: ConsumerMeta { message_id: id, ordering_key, publish_time, attributes },
    }
}

/// The span since the epoch that a service timestamp stands for.
pub fn timestamp_span(t: Timestamp) -> (span: SinceEpoch)
    ensures
        span == span_of(t),
{
    let secs: u64 = if t.seconds >= 0 {
        t.seconds as u64
    } else {
        0
    };
    let nanos: u32 = if t.nanos >= 0 {
        t.nanos as u32
    } else {
        0
    };
    SinceEpoch { secs, nanos }
}

/// Splits a message into its payload and the metadata of its other fields.
pub fn metadata(message: PubsubMessage) -> (parts: (Vec<u8>, Metadata))
    ensures
        parts.0@ == message@.data,
        parts.1@ == metadata_of(
            message@.message_id,
            message@.ordering_key,
            publish_span(message@.publish_time),
            message@.attributes,
        ),
{
    let PubsubMessage { data, message_id, ordering_key, publish_time, attributes } = message;
    let span = match publish_time {
        Some(t) => Some(timestamp_span(t)),
        None => None,
    };
    (data, pubsub_metadata(message_id, ordering_key, span, attributes))
}

/// Reading the metadata back gives the message id, the ordering key and the
/// attributes that went in, unchanged, and the publish time in nanoseconds
/// since the epoch: exact where the span fits 64 bits, 0 where it does not.
pub proof fn lemma_metadata_round_trip(
    id: Seq<char>,
    ordering_key: Seq<char>,
    publish_time: Option<SinceEpoch>,
    attributes: Seq<(Seq<char>, Seq<char>)>,
)
    ensures
        metadata_of(id, ordering_key, publish_time, attributes).message_id == id,
        metadata_of(id, ordering_key, publish_time, attributes).ordering_key == ordering_key,
        metadata_of(id, ordering_key, publish_time, attributes).attributes == attributes,
        publish_time.is_none() <==> metadata_of(
            id,
            ordering_key,
            publish_time,
            attributes,
        ).publish_time.is_none(),
        publish_time.is_some() && publish_time.unwrap().total_nanos() <= u64::MAX ==> metadata_of(
            id,
            ordering_key,
            publish_time,
            attributes,
        ).publish_time == Some(publish_time.unwrap().total_nanos() as u64),
        publish_time.is_some() && publish_time.unwrap().total_nanos() > u64::MAX ==> metadata_of(
            id,
            ordering_key,
            publish_time,
            attributes,
        ).publish_time == Some(0u64),
{
}

} // verus!
