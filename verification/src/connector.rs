//! The connector and its builder.

use crate::error::{ConnectorError, ErrorView};
use crate::source::{CodecReq, Config, Endpoint, GSubSource, SourceView};
use vstd::prelude::*;

verus! {

/// Builds connectors of the type `gpubsub_consumer`.
#[derive(Debug, Default)]
pub struct Builder {}

/// One configured connector.
#[derive(Clone, Debug)]
pub struct GSub {
    config: Config,
    url: Endpoint,
    client_id: String,
}

/// The source that a connector with these settings creates.
pub open spec fn unconnected(config: Config, url: Endpoint, client_id: Seq<char>) -> SourceView {
    SourceView {
        connect_timeout: config.connect_timeout,
        ack_deadline: config.ack_deadline,
        subscription_id: config.subscription_id@,
        endpoint: config.endpoint@,
        skip_authentication: config.skip_authentication,
        scheme: url.scheme@,
        host: match url.host {
            Some(h) => Some(h@),
            None => None,
        },
        client_id,
        connected: false,
    }
}

impl Builder {
    /// The name of the connector type.
    pub fn connector_type(&self) -> (name: &'static str)
        ensures
            name@ == "gpubsub_consumer"@,
    {
        "gpubsub_consumer"
    }

    /// The connector `alias` with its configuration; without one, the
    /// configuration is reported missing for `alias`.
    pub fn build(&self, alias: &str, config: Option<Config>, url: Endpoint, client_id: String) -> (built:
        Result<GSub, ConnectorError>)
        ensures
            match config {
                Some(c) => built.is_ok() && built.unwrap().source_view() == unconnected(
                    c,
                    url,
                    client_id@,
                ),
                None => built.is_err() && built.unwrap_err()@ == ErrorView::MissingConfiguration(
                    alias@,
                ),
            },
    {
        match config {
            Some(config) => Ok(GSub { config, url, client_id }),
            None => Err(ConnectorError::MissingConfiguration(alias.to_owned())),
        }
    }
}

impl GSub {
    /// What a source of this connector holds when it is created.
    pub closed spec fn source_view(&self) -> SourceView {
        unconnected(self.config, self.url, self.client_id@)
    }

    /// A source with the connector's settings, not yet connected.
    pub fn create_source(&self) -> (source: GSubSource)
        ensures
            source@ == self.source_view(),
    {
        let config = Config {
            connect_timeout: self.config.connect_timeout,
            ack_deadline: self.config.ack_deadline,
            subscription_id: self.config.subscription_id.clone(),
            endpoint: self.config.endpoint.clone(),
            skip_authentication: self.config.skip_authentication,
        };
        let url = Endpoint {
            scheme: self.url.scheme.clone(),
            host: match &self.url.host {
                Some(h) => Some(h.clone()),
                None => None,
            },
        };
        GSubSource::new(config, url, self.client_id.clone())
    }

    /// The payload is raw bytes: the caller has to name a codec.
    pub fn codec_requirements(&self) -> (req: CodecReq)
        ensures
            req == CodecReq::Required,
    {
        CodecReq::Required
    }
}

} // verus!
