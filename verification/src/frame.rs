//! The vocabulary of the wire: what a connection yields and what is sent.

use crate::error::RelayerError;
use vstd::prelude::*;

verus! {

/// The status code for a connection closed because a rule of the relay was
/// not met.
pub const CLOSE_POLICY: u16 = 1008;

/// The status code for a connection closed over a frame that was too large.
pub const CLOSE_SIZE: u16 = 1009;

/// Why a connection is closed: a WebSocket status code and, if any, words.
#[derive(Debug, Clone, PartialEq, Eq)]
pub struct CloseReason {
    pub code: u16,
    pub description: Option<String>,
}

/// A frame to be sent on a connection. Pings and pongs carry no payload.
#[derive(Debug, Clone, PartialEq, Eq)]
pub enum Frame {
    Ping,
    Pong,
    Text(String),
    Binary(Vec<u8>),
}

/// What reading a connection's stream gave: a message with its
/// continuations joined, or the news that nothing more will come.
#[derive(Debug, Clone, PartialEq, Eq)]
pub enum Inbound {
    Text(String),
    Binary(Vec<u8>),
    Ping(Vec<u8>),
    Pong(Vec<u8>),
    /// The peer asked to close, with or without a reason.
    Close(Option<CloseReason>),
    /// The stream broke: a protocol error or a failed read.
    Failed,
    /// The stream ended without a close frame.
    Ended,
}

/// How the relay parts with a connection that it closes.
#[derive(Debug, Clone, PartialEq, Eq)]
pub enum Farewell {
    /// Without a reason.
    Silent,
    /// With the reason that the peer itself gave for closing.
    Echo(CloseReason),
    /// The channel expired before anyone joined it.
    NoPeer,
    /// The relay would not go on, for the given error.
    Refused(RelayerError),
    /// The peer sent a frame larger than the relay accepts.
    Oversized,
}

impl Farewell {
    /// The farewell that answers a peer's request to close.
    pub open spec fn answering(asked: Option<CloseReason>) -> Farewell {
        match asked {
            Some(reason) => Farewell::Echo(reason),
            None => Farewell::Silent,
        }
    }

    /// The status code and the words that the relay itself chooses, where
    /// the farewell is neither silent nor the peer's own.
    pub open spec fn chosen(self) -> Option<(u16, Seq<char>)> {
        match self {
            Farewell::Silent => None,
            Farewell::Echo(_) => None,
            Farewell::NoPeer => Some((CLOSE_POLICY, "no peer joined"@)),
            Farewell::Refused(error) => Some((CLOSE_POLICY, error.text())),
            Farewell::Oversized => Some((CLOSE_SIZE, "frame too large"@)),
        }
    }

    /// Computes [`Farewell::answering`].
    pub fn answer(asked: Option<CloseReason>) -> (farewell: Farewell)
        ensures
            farewell == Farewell::answering(asked),
    {
        match asked {
            Some(reason) => Farewell::Echo(reason),
            None => Farewell::Silent,
        }
    }

    /// The reason to put into the close frame: none for a silent farewell,
    /// the peer's own for an echo, and otherwise the relay's code and words.
    pub fn reason(self) -> (reason: Option<CloseReason>)
        ensures
            self is Silent ==> reason is None,
            self matches Farewell::Echo(given) ==> reason == Some(given),
            self.chosen() matches Some(choice) ==> {
                &&& reason matches Some(given)
                &&& given.code == choice.0
                &&& given.description matches Some(words)
                &&& words@ == choice.1
            },
    {
        match self {
            Farewell::Silent => None,
            Farewell::Echo(given) => Some(given),
            Farewell::NoPeer => Some(
                CloseReason { code: CLOSE_POLICY, description: Some("no peer joined".to_owned()) },
            ),
            Farewell::Refused(error) => Some(
                CloseReason { code: CLOSE_POLICY, description: Some(error.description()) },
            ),
            Farewell::Oversized => Some(
                CloseReason { code: CLOSE_SIZE, description: Some("frame too large".to_owned()) },
            ),
        }
    }
}

impl Inbound {
    /// Whether this is the end of the stream, in any of its three forms.
    pub open spec fn is_end(self) -> bool {
        self is Close || self is Failed || self is Ended
    }
}

} // verus!
