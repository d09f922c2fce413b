//! What the two endpoints answer when no WebSocket comes about.
//!
//! `GET /ws` upgrades and opens a channel; `GET /ws/{id}` looks the channel
//! up before it upgrades, then joins it. The upgrade itself belongs to the
//! HTTP layer; what is decided here is when the answer is an error and what
//! it says.

use crate::channel::ChannelState;
use crate::error::RelayerError;
use crate::frame::Farewell;
use crate::identifier::is_random;
use crate::relayer::pairing_step;
use crate::relayer::turned_away;
use crate::relayer::Relayer;
use crate::relayer::RelayerView;
use crate::relayer::Rendezvous;
use crate::session::RelayerSessionShared;
use vstd::prelude::*;

verus! {

/// The status of an answer to an identifier without a channel.
pub const NOT_FOUND: u16 = 404;

/// The status of an answer to a request over which the relay failed.
pub const INTERNAL_SERVER_ERROR: u16 = 500;

/// An answer that is not an upgrade.
#[derive(Debug, Clone, PartialEq, Eq)]
pub struct Response {
    pub status: u16,
    pub body: String,
}

/// An answer, with its body as the characters it holds.
pub struct ResponseView {
    pub status: u16,
    pub body: Seq<char>,
}

impl View for Response {
    type V = ResponseView;

    open spec fn view(&self) -> ResponseView {
        ResponseView { status: self.status, body: self.body@ }
    }
}

/// The answer to a request over which the relay failed: the error's
/// description, under the status of a server error.
pub open spec fn failure_view(error: RelayerError) -> ResponseView {
    ResponseView { status: INTERNAL_SERVER_ERROR, body: error.text() }
}

/// Computes [`failure_view`].
pub fn failure(error: RelayerError) -> (response: Response)
    ensures
        response@ == failure_view(error),
{
    Response { status: INTERNAL_SERVER_ERROR, body: error.description() }
}

/// Looks up the channel before any upgrade is attempted: an identifier
/// without a channel is answered at once.
pub fn find_channel(relayer: &Relayer, id: &u128) -> (found: Result<(), Response>)
    ensures
        found is Ok <==> relayer@.channels.contains_key(*id),
        found matches Err(response) ==> response@ == (ResponseView {
            status: NOT_FOUND,
            body: "Channel not found"@,
        }),
{
    if relayer.has_channel(id) {
        Ok(())
    } else {
        Err(Response { status: NOT_FOUND, body: "Channel not found".to_owned() })
    }
}

/// Opens a channel for the host whose connection has just been upgraded.
/// What [`Relayer::create_new_channel`] reports as an error is answered as
/// [`failure_view`] says.
pub fn create_channel(relayer: &mut Relayer, host: RelayerSessionShared) -> (opened: Result<
    Rendezvous,
    Response,
>)
    ensures
        opened is Err ==> exists|taken: u128| #[trigger]
            is_random(taken) && old(relayer)@.channels.contains_key(taken),
        opened matches Err(response) ==> {
            &&& response@ == failure_view(RelayerError::ChannelUnavailable)
            &&& final(relayer)@ == old(relayer)@
        },
        opened matches Ok(rendezvous) ==> {
            &&& is_random(rendezvous.id)
            &&& !old(relayer)@.channels.contains_key(rendezvous.id)
            &&& rendezvous.timeout == old(relayer)@.config.channel_creation_timeout
            &&& final(relayer)@.config == old(relayer)@.config
            &&& final(relayer)@.issued == old(relayer)@.issued.insert(rendezvous.id)
            &&& final(relayer)@.channels.contains_key(rendezvous.id)
            &&& final(relayer)@.channels.remove(rendezvous.id) == old(relayer)@.channels
            &&& final(relayer)@.channels[rendezvous.id] matches ChannelState::Waiting {
                host: waiting,
                ..
            }
            &&& waiting == host
        },
        final(relayer)@.sound(),
{
    match relayer.create_new_channel(host) {
        Ok(rendezvous) => Ok(rendezvous),
        Err(error) => Err(failure(error)),
    }
}

/// What a client that could not join is left with: the answer to its
/// request, and the farewell with which its connection is closed.
#[derive(Debug, Clone, PartialEq, Eq)]
pub struct Refusal {
    pub response: Response,
    pub farewell: Farewell,
}

/// Whether `joined` is what the endpoint makes of `outcome`: the host where
/// the relay paired, and otherwise the answer that [`failure_view`] gives
/// for the error, with the farewell that carries the same error.
pub open spec fn joined_as(
    outcome: Result<RelayerSessionShared, RelayerError>,
    joined: Result<RelayerSessionShared, Refusal>,
) -> bool {
    match outcome {
        Ok(host) => joined == Ok::<RelayerSessionShared, Refusal>(host),
        Err(error) => {
            &&& joined matches Err(refusal)
            &&& refusal.response@ == failure_view(error)
            &&& refusal.farewell == Farewell::Refused(error)
        },
    }
}

/// Whether `after` and `joined` are what the endpoint makes of an attempt
/// to join under `id`, with the host listening or not as `delivered` says.
pub open spec fn answered_as(
    before: RelayerView,
    after: RelayerView,
    id: u128,
    joined: Result<RelayerSessionShared, Refusal>,
    delivered: bool,
) -> bool {
    &&& after == (RelayerView {
        channels: pairing_step(before.channels, id, delivered).0,
        ..before
    })
    &&& joined_as(pairing_step(before.channels, id, delivered).1, joined)
}

/// Joins the channel for the client whose connection has just been
/// upgraded. Where [`Relayer::join_channel`] reports an error, the request
/// is answered as [`failure_view`] says and the client is turned away: with
/// no channel under the identifier, with a channel that was joined before,
/// and with a host that has stopped listening.
pub fn join_channel(relayer: &mut Relayer, id: u128, client: &RelayerSessionShared) -> (joined:
    Result<RelayerSessionShared, Refusal>)
    ensures
        answered_as(old(relayer)@, final(relayer)@, id, joined, true) || answered_as(
            old(relayer)@,
            final(relayer)@,
            id,
            joined,
            false,
        ),
        final(relayer)@.sound(),
{
    match relayer.join_channel(id, client) {
        Ok(host) => Ok(host),
        Err(error) => Err(Refusal { response: failure(error), farewell: turned_away(error) }),
    }
}

} // verus!
