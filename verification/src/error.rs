//! The failures that the connector reports.

use vstd::prelude::*;

verus! {

/// Why an operation of the connector failed.
#[derive(Clone, Debug)]
pub enum ConnectorError {
    /// The connector named here was built without a configuration.
    MissingConfiguration(String),
    /// The transport could not be set up or connected.
    Transport(String),
    /// An operation came before a successful connect; the strings name the
    /// client and say what is missing.
    ClientNotAvailable(String, String),
    /// The service cannot be used for now; the call may be tried again.
    Unavailable(String),
    /// The service did not answer in time.
    Timeout,
    /// The consumer task has gone and closed its channel.
    ChannelClosed,
    /// Any other failure, in words.
    Other(String),
}

/// What an [`ConnectorError`] holds.
pub enum ErrorView {
    MissingConfiguration(Seq<char>),
    Transport(Seq<char>),
    ClientNotAvailable(Seq<char>, Seq<char>),
    Unavailable(Seq<char>),
    Timeout,
    ChannelClosed,
    Other(Seq<char>),
}

impl View for ConnectorError {
    type V = ErrorView;

    open spec fn view(&self) -> ErrorView {
        match self {
            ConnectorError::MissingConfiguration(alias) => ErrorView::MissingConfiguration(alias@),
            ConnectorError::Transport(reason) => ErrorView::Transport(reason@),
            ConnectorError::ClientNotAvailable(client, reason) => ErrorView::ClientNotAvailable(
                client@,
                reason@,
            ),
            ConnectorError::Unavailable(reason) => ErrorView::Unavailable(reason@),
            ConnectorError::Timeout => ErrorView::Timeout,
            ConnectorError::ChannelClosed => ErrorView::ChannelClosed,
            ConnectorError::Other(reason) => ErrorView::Other(reason@),
        }
    }
}

impl ConnectorError {
    /// Is this the timeout that stands for a lost connection?
    pub fn is_timeout(&self) -> (yes: bool)
        ensures
            yes == (self@ == ErrorView::Timeout),
    {
        match self {
            ConnectorError::Timeout => true,
            _ => false,
        }
    }
}

} // verus!
