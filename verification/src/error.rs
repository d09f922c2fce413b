//! The ways in which pairing and relaying fail.

use vstd::prelude::*;
use vstd::std_specs::convert::FromSpecImpl;

verus! {

/// `tokio::time::error::Elapsed`: a timer ran out before the guarded
/// operation finished. Carried through, never inspected.
#[verifier::external_type_specification]
#[verifier::external_body]
pub struct ExElapsed(tokio::time::error::Elapsed);

/// `actix_ws::Closed`: the transport refused a frame because the WebSocket
/// is closed. Carried through, never inspected.
#[verifier::external_type_specification]
#[verifier::external_body]
pub struct ExClosed(actix_ws::Closed);

/// Every failure is scoped to one channel or one pair of connections.
#[derive(Debug, Clone, Copy, PartialEq, Eq, Structural)]
pub enum RelayerError {
    /// An application frame arrived from a host that has no peer yet.
    UnexpectedMessage,
    /// The host had stopped listening when a client tried to announce itself.
    NotifyHost,
    /// No peer has arrived yet.
    WaitingPeer,
    /// The channel is not waiting for a peer any more.
    ChannelUnavailable,
    /// No channel is registered under the identifier.
    ChannelNotFound,
    /// A send did not finish within the time allowed for it.
    DeadlineElapsed,
    /// The transport reported that the WebSocket is closed.
    SessionClosed,
    /// The session's connection has already been taken out of it.
    Closed,
    /// The close notifier was armed twice, or signalled while not armed.
    SessionNotify,
}

impl RelayerError {
    /// The words that describe the error to a caller.
    pub open spec fn text(self) -> Seq<char> {
        match self {
            RelayerError::UnexpectedMessage => "unexpected message"@,
            RelayerError::NotifyHost => "notify host"@,
            RelayerError::WaitingPeer => "waiting peer"@,
            RelayerError::ChannelUnavailable => "channel unavailable"@,
            RelayerError::ChannelNotFound => "channel not found"@,
            RelayerError::DeadlineElapsed => "deadline has elapsed"@,
            RelayerError::SessionClosed => "Session is closed"@,
            RelayerError::Closed => "relayer session is closed"@,
            RelayerError::SessionNotify => "session notify channel"@,
        }
    }

    /// The error's textual description. An elapsed deadline and a closed
    /// session are described in the words that the timer and the transport
    /// use for them.
    pub fn description(&self) -> (words: String)
        ensures
            words@ == self.text(),
    {
        match self {
            RelayerError::UnexpectedMessage => "unexpected message".to_owned(),
            RelayerError::NotifyHost => "notify host".to_owned(),
            RelayerError::WaitingPeer => "waiting peer".to_owned(),
            RelayerError::ChannelUnavailable => "channel unavailable".to_owned(),
            RelayerError::ChannelNotFound => "channel not found".to_owned(),
            RelayerError::DeadlineElapsed => "deadline has elapsed".to_owned(),
            RelayerError::SessionClosed => "Session is closed".to_owned(),
            RelayerError::Closed => "relayer session is closed".to_owned(),
            RelayerError::SessionNotify => "session notify channel".to_owned(),
        }
    }
}

impl From<tokio::time::error::Elapsed> for RelayerError {
    fn from(elapsed: tokio::time::error::Elapsed) -> (error: RelayerError) {
        RelayerError::DeadlineElapsed
    }
}

impl FromSpecImpl<tokio::time::error::Elapsed> for RelayerError {
    open spec fn obeys_from_spec() -> bool {
        true
    }

    open spec fn from_spec(elapsed: tokio::time::error::Elapsed) -> RelayerError {
        RelayerError::DeadlineElapsed
    }
}

impl From<actix_ws::Closed> for RelayerError {
    fn from(closed: actix_ws::Closed) -> (error: RelayerError) {
        RelayerError::SessionClosed
    }
}

impl FromSpecImpl<actix_ws::Closed> for RelayerError {
    open spec fn obeys_from_spec() -> bool {
        true
    }

    open spec fn from_spec(closed: actix_ws::Closed) -> RelayerError {
        RelayerError::SessionClosed
    }
}

} // verus!
