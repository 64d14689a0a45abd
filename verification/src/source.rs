//! The source that the pipeline talks to: what `connect`, `pull_data` and
//! `ack` decide.
//!
//! The channels and the task handle belong to the caller, who waits on them;
//! the source keeps whether a consumer task is attached and says what to do
//! with what the caller received.

use crate::error::{ConnectorError, ErrorView};
use crate::message::PubsubMessage;
use crate::metadata::{metadata, metadata_of, publish_span, Metadata};
use vstd::prelude::*;

verus! {

/// The stream that every reply of this source belongs to.
pub const DEFAULT_STREAM_ID: u64 = 0;

/// The ack deadline used where the configuration names none: ten seconds.
pub fn default_ack_deadline() -> (ns: u64)
    ensures
        ns == 10_000_000_000u64,
{
    10_000_000_000u64
}

/// The connector's configuration. Times are in nanoseconds.
#[derive(Clone, Debug)]
pub struct Config {
    pub connect_timeout: u64,
    pub ack_deadline: u64,
    pub subscription_id: String,
    pub endpoint: String,
    /// Only for tests: the requests then carry an empty bearer token.
    pub skip_authentication: bool,
}

/// The parts of the endpoint's URL that the connection depends on.
#[derive(Clone, Debug)]
pub struct Endpoint {
    pub scheme: String,
    pub host: Option<String>,
}

/// How to build the transport channel.
#[derive(Clone, Debug)]
pub struct ChannelPlan {
    pub endpoint: String,
    pub connect_timeout_ns: u64,
    /// The domain to verify the server against; `None` for a channel
    /// without TLS.
    pub tls_domain: Option<String>,
}

/// What to do once the transport is connected.
#[derive(Clone, Debug)]
pub struct Respawn {
    /// Cancel the task that is attached, and wait for its end, before the
    /// new one is spawned.
    pub cancel_prior: bool,
    pub client_id: String,
    pub subscription_id: String,
    pub ack_deadline_ns: u64,
    /// The capacity of the channel that carries messages to the pipeline.
    pub message_capacity: usize,
    /// The capacity of the channel that carries acks to the task.
    pub ack_capacity: usize,
}

/// What the caller found on the message channel.
#[derive(Clone, Debug)]
pub enum Inbound {
    /// The channel is closed: the task has ended.
    Closed,
    /// The task passed on a failure.
    Failed(ConnectorError),
    /// The task passed on a message under a pull id.
    Message(u64, PubsubMessage),
}

/// What the source hands to the pipeline.
#[derive(Clone, Debug)]
pub enum SourceReply {
    /// A payload for the codec, with its metadata and stream.
    Data { data: Vec<u8>, meta: Option<Metadata>, stream: Option<u64> },
    /// The stream has failed.
    StreamFail(u64),
}

/// The answer to a pull: the reply, and whether the pipeline is first to be
/// told that the connection is lost.
#[derive(Clone, Debug)]
pub struct Pulled {
    pub reply: SourceReply,
    pub connection_lost: bool,
}

/// Whether the raw payload needs a codec.
#[derive(Clone, Copy, Debug, PartialEq, Eq)]
pub enum CodecReq {
    Structured,
    Required,
    Optional,
}

/// Is `scheme` the one that asks for TLS?
pub open spec fn wants_tls(scheme: Seq<char>) -> bool {
    scheme == "https"@
}

/// The source of one connector.
pub struct GSubSource {
    config: Config,
    url: Endpoint,
    client_id: String,
    connected: bool,
}

/// What a [`GSubSource`] holds.
pub struct SourceView {
    pub connect_timeout: u64,
    pub ack_deadline: u64,
    pub subscription_id: Seq<char>,
    pub endpoint: Seq<char>,
    pub skip_authentication: bool,
    pub scheme: Seq<char>,
    pub host: Option<Seq<char>>,
    pub client_id: Seq<char>,
    /// Is a consumer task attached, with its two channels?
    pub connected: bool,
}

impl View for GSubSource {
    type V = SourceView;

    closed spec fn view(&self) -> SourceView {
        SourceView {
            connect_timeout: self.config.connect_timeout,
            ack_deadline: self.config.ack_deadline,
            subscription_id: self.config.subscription_id@,
            endpoint: self.config.endpoint@,
            skip_authentication: self.config.skip_authentication,
            scheme: self.url.scheme@,
            host: match self.url.host {
                Some(h) => Some(h@),
                None => None,
            },
            client_id: self.client_id@,
            connected: self.connected,
        }
    }
}

impl GSubSource {
    /// A source that is not connected yet.
    pub fn new(config: Config, url: Endpoint, client_id: String) -> (source: GSubSource)
        ensures
            source@ == (SourceView {
                connect_timeout: config.connect_timeout,
                ack_deadline: config.ack_deadline,
                subscription_id: config.subscription_id@,
                endpoint: config.endpoint@,
                skip_authentication: config.skip_authentication,
                scheme: url.scheme@,
                host: match url.host {
                    Some(h) => Some(h@),
                    None => None,
                },
                client_id: client_id@,
                connected: false,
            }),
    {
        GSubSource { config, url, client_id, connected: false }
    }

    /// Is a consumer task attached?
    pub fn is_connected(&self) -> (yes: bool)
        ensures
            yes == self@.connected,
    {
        self.connected
    }

    /// Are the requests to carry an empty bearer token?
    pub fn skips_authentication(&self) -> (yes: bool)
        ensures
            yes == self@.skip_authentication,
    {
        self.config.skip_authentication
    }

    /// How to build the transport channel: to the configured endpoint, with
    /// the configured timeout, and with TLS for the URL's host where the
    /// scheme is `https`. An `https` URL without a host is refused.
    pub fn channel_plan(&self) -> (plan: Result<ChannelPlan, ConnectorError>)
        ensures
            wants_tls(self@.scheme) && self@.host.is_none() <==> plan.is_err(),
            plan.is_err() ==> plan.unwrap_err()@ == ErrorView::Transport(
                "The endpoint is missing a hostname"@,
            ),
            plan.is_ok() ==> {
                &&& plan.unwrap().endpoint@ == self@.endpoint
                &&& plan.unwrap().connect_timeout_ns == self@.connect_timeout
                &&& wants_tls(self@.scheme) ==> plan.unwrap().tls_domain.is_some()
                    && plan.unwrap().tls_domain.unwrap()@ == self@.host.unwrap()
                &&& !wants_tls(self@.scheme) ==> plan.unwrap().tls_domain.is_none()
            },
    {
        let tls_domain = if self.url.scheme == "https".to_owned() {
            match &self.url.host {
                Some(host) => Some(host.clone()),
                None => {
                    return Err(
                        ConnectorError::Transport("The endpoint is missing a hostname".to_owned()),
                    );
                },
            }
        } else {
            None
        };
        Ok(
            ChannelPlan {
                endpoint: self.config.endpoint.clone(),
                connect_timeout_ns: self.config.connect_timeout,
                tls_domain,
            },
        )
    }

    /// The transport is connected: a consumer task is to be spawned with
    /// two channels of `queue_size` places, after the task attached so far,
    /// if there is one, has been cancelled. The source counts as connected
    /// from here on.
    pub fn connect(&mut self, queue_size: usize) -> (plan: Respawn)
        ensures
            final(self)@ == (SourceView { connected: true, ..old(self)@ }),
            plan.cancel_prior == old(self)@.connected,
            plan.client_id@ == old(self)@.client_id,
            plan.subscription_id@ == old(self)@.subscription_id,
            plan.ack_deadline_ns == old(self)@.ack_deadline,
            plan.message_capacity == queue_size,
            plan.ack_capacity == queue_size,
    {
        let cancel_prior = self.connected;
        self.connected = true;
        Respawn {
            cancel_prior,
            client_id: self.client_id.clone(),
            subscription_id: self.config.subscription_id.clone(),
            ack_deadline_ns: self.config.ack_deadline,
            message_capacity: queue_size,
            ack_capacity: queue_size,
        }
    }

    /// The check that precedes the wait for a message: a source that is not
    /// connected has no channel to wait on.
    pub fn receiver_ready(&self) -> (ready: Result<(), ConnectorError>)
        ensures
            ready.is_ok() <==> self@.connected,
            ready.is_err() ==> ready.unwrap_err()@ == ErrorView::ClientNotAvailable(
                "PubSub"@,
                "The receiver is not connected"@,
            ),
    {
        if self.connected {
            Ok(())
        } else {
            Err(
                ConnectorError::ClientNotAvailable(
                    "PubSub".to_owned(),
                    "The receiver is not connected".to_owned(),
                ),
            )
        }
    }

    /// Turns what the message channel gave into the reply for the pipeline.
    ///
    /// A message becomes a `Data` reply on the default stream, and its pull
    /// id is written to `pull_id`. A timeout becomes `StreamFail` on the
    /// default stream, with the pipeline to be told that the connection is
    /// lost. Any other failure, and a closed channel, is an error, as is a
    /// pull on a source that is not connected.
    pub fn pull_data(&self, pull_id: &mut u64, inbound: Inbound) -> (pulled: Result<Pulled, ConnectorError>)
        ensures
            !self@.connected ==> pulled.is_err() && pulled.unwrap_err()@
                == ErrorView::ClientNotAvailable("PubSub"@, "The receiver is not connected"@)
                && *final(pull_id) == *old(pull_id),
            self@.connected ==> match inbound {
                Inbound::Closed => pulled.is_err() && pulled.unwrap_err()@
                    == ErrorView::ChannelClosed && *final(pull_id) == *old(pull_id),
                Inbound::Failed(e) => *final(pull_id) == *old(pull_id) && if e@
                    == ErrorView::Timeout {
                    pulled.is_ok() && pulled.unwrap().connection_lost && pulled.unwrap().reply
                        == SourceReply::StreamFail(DEFAULT_STREAM_ID)
                } else {
                    pulled.is_err() && pulled.unwrap_err() == e
                },
                Inbound::Message(id, message) => *final(pull_id) == id && pulled.is_ok()
                    && !pulled.unwrap().connection_lost && is_data_for(
                    pulled.unwrap().reply,
                    message,
                ),
            },
    {
        match self.receiver_ready() {
            Err(e) => {
                return Err(e);
            },
            Ok(_) => {},
        }
        match inbound {
            Inbound::Closed => Err(ConnectorError::ChannelClosed),
            Inbound::Failed(e) => {
                if e.is_timeout() {
                    Ok(
                        Pulled {
                            reply: SourceReply::StreamFail(DEFAULT_STREAM_ID),
                            connection_lost: true,
                        },
                    )
                } else {
                    Err(e)
                }
            },
            Inbound::Message(id, message) => {
                *pull_id = id;
                let (data, meta) = metadata(message);
                Ok(
                    Pulled {
                        reply: SourceReply::Data {
                            data,
                            meta: Some(meta),
                            stream: Some(DEFAULT_STREAM_ID),
                        },
                        connection_lost: false,
                    },
                )
            },
        }
    }

    /// The pull id to put on the ack channel, where the source is
    /// connected. The token is looked up by the task, not here.
    pub fn ack(&self, stream_id: u64, pull_id: u64) -> (intent: Result<u64, ConnectorError>)
        ensures
            self@.connected ==> intent == Ok::<u64, ConnectorError>(pull_id),
            !self@.connected ==> intent.is_err() && intent.unwrap_err()@
                == ErrorView::ClientNotAvailable("PubSub"@, "The client is not connected"@),
    {
        if self.connected {
            Ok(pull_id)
        } else {
            Err(
                ConnectorError::ClientNotAvailable(
                    "PubSub".to_owned(),
                    "The client is not connected".to_owned(),
                ),
            )
        }
    }

    /// Messages are acknowledged only once the pipeline has handled them.
    pub fn is_transactional(&self) -> (yes: bool)
        ensures
            yes,
    {
        true
    }

    /// Messages arrive without being asked for one by one.
    pub fn asynchronous(&self) -> (yes: bool)
        ensures
            yes,
    {
        true
    }
}

/// Is `reply` the `Data` reply for `message`: its payload, the metadata of
/// its other fields, on the default stream?
pub open spec fn is_data_for(reply: SourceReply, message: PubsubMessage) -> bool {
    match reply {
        SourceReply::Data { data, meta, stream } => {
            &&& data@ == message@.data
            &&& meta.is_some()
            &&& meta.unwrap()@ == metadata_of(
                message@.message_id,
                message@.ordering_key,
                publish_span(message@.publish_time),
                message@.attributes,
            )
            &&& stream == Some(DEFAULT_STREAM_ID)
        },
        SourceReply::StreamFail(_) => false,
    }
}

} // verus!
