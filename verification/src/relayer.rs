//! The orchestrator: the registry of channels and the decisions taken
//! while a host waits for its peer.
//!
//! A channel is registered waiting. It leaves the registry when a client
//! is paired with its host, when its time runs out with nobody paired, and
//! when its host goes away. A channel that a client tried to join in vain
//! stays registered and ready until its host's wait ends.
//!
//! Every method takes the relayer exclusively, so each is one indivisible
//! step: a channel is registered, joined or given up, and no two of these
//! can interleave on the same identifier.

use crate::channel::join_step;
use crate::channel::Channel;
use crate::channel::ChannelState;
use crate::channel::Channels;
use crate::config::RelayerConfig;
use crate::error::RelayerError;
use crate::frame::Farewell;
use crate::frame::Frame;
use crate::frame::Inbound;
use crate::identifier::is_random;
use crate::identifier::random_identifier;
use crate::registry::holds;
use crate::registry::put;
use crate::registry::registered;
use crate::registry::take;
use crate::registry::vacant;
use crate::relay::Relay;
use crate::relay::RelayView;
use crate::session::RelayerSessionShared;
use std::time::Duration;
use tokio::sync::oneshot::Receiver;
use tokio::sync::oneshot::Sender;
use vstd::prelude::*;

verus! {

/// `tokio::sync::oneshot::Receiver`: the receiving half of a one-shot
/// signal. Carried through to whoever waits on it.
#[verifier::external_type_specification]
#[verifier::external_body]
#[verifier::reject_recursive_types(T)]
pub struct ExReceiver<T>(tokio::sync::oneshot::Receiver<T>);

/// `tokio::sync::oneshot::error::RecvError`: what a receiver yields when its
/// sender is dropped unused.
#[verifier::external_type_specification]
#[verifier::external_body]
pub struct ExRecvError(tokio::sync::oneshot::error::RecvError);

/// `oneshot::channel` makes the two halves of a fresh one-shot signal.
pub assume_specification<T>[ tokio::sync::oneshot::channel::<T> ]() -> (halves: (
    Sender<T>,
    Receiver<T>,
))
;

/// The configuration and the registry of channels.
pub struct Relayer {
    config: RelayerConfig,
    channels: Channels,
    /// Every identifier under which a channel was ever registered.
    issued: Ghost<Set<u128>>,
}

/// What a relayer is, for the purpose of stating what its operations do.
#[verifier::ext_equal]
pub struct RelayerView {
    pub config: RelayerConfig,
    /// The state of each registered channel, by identifier.
    pub channels: Map<u128, ChannelState>,
    /// Every identifier under which a channel was ever registered.
    pub issued: Set<u128>,
}

/// A channel that has just been opened, as its host's task needs it.
pub struct Rendezvous {
    /// The identifier to share with the peer.
    pub id: u128,
    /// Yields the client's session once a client has joined.
    pub arrival: Receiver<RelayerSessionShared>,
    /// How long to wait for that before giving the channel up.
    pub timeout: Duration,
}

/// What can happen while a host waits for its peer.
pub enum WaitEvent {
    /// The notifier yielded the session of a client that joined.
    Arrived(RelayerSessionShared),
    /// The notifier was dropped without a client.
    NotifierClosed,
    /// The time allowed for pairing ran out.
    Expired,
    /// The host's own connection yielded something.
    Received(Inbound),
    /// A send to the host that an earlier step asked for did not go through.
    SendFailed(RelayerError),
}

/// What to do about it.
pub enum WaitAction {
    /// Start forwarding between the host and this client.
    Relay(RelayerSessionShared),
    /// Send this frame to the host and go on waiting.
    Reply(Frame),
    /// Go on waiting.
    Continue,
    /// Stop waiting: close the host's session with this farewell and report
    /// this error. The channel is no longer registered.
    Abandon { error: RelayerError, farewell: Farewell },
}

impl RelayerView {
    /// Every registered channel was issued its identifier.
    pub open spec fn sound(self) -> bool {
        forall|id: u128| #[trigger] self.channels.contains_key(id) ==> self.issued.contains(id)
    }
}

/// One step of the wait of the host whose channel is `id`: what it leaves
/// registered and what it asks for.
pub open spec fn wait_step(channels: Map<u128, ChannelState>, id: u128, event: WaitEvent) -> (
    Map<u128, ChannelState>,
    WaitAction,
) {
    let gone = channels.remove(id);
    match event {
        WaitEvent::Arrived(client) => (channels, WaitAction::Relay(client)),
        WaitEvent::NotifierClosed => (
            gone,
            WaitAction::Abandon {
                error: RelayerError::ChannelNotFound,
                farewell: Farewell::NoPeer,
            },
        ),
        WaitEvent::Expired => if channels.contains_key(id) && channels[id] is Waiting {
            (
                gone,
                WaitAction::Abandon {
                    error: RelayerError::ChannelNotFound,
                    farewell: Farewell::NoPeer,
                },
            )
        } else {
            (channels, WaitAction::Continue)
        },
        WaitEvent::Received(Inbound::Ping(_)) => (channels, WaitAction::Reply(Frame::Pong)),
        WaitEvent::Received(Inbound::Pong(_)) => (channels, WaitAction::Continue),
        WaitEvent::Received(Inbound::Text(_)) | WaitEvent::Received(Inbound::Binary(_)) => (
            gone,
            WaitAction::Abandon {
                error: RelayerError::UnexpectedMessage,
                farewell: Farewell::Refused(RelayerError::UnexpectedMessage),
            },
        ),
        WaitEvent::Received(Inbound::Close(asked)) => (
            gone,
            WaitAction::Abandon {
                error: RelayerError::SessionClosed,
                farewell: Farewell::answering(asked),
            },
        ),
        WaitEvent::Received(Inbound::Failed) | WaitEvent::Received(Inbound::Ended) => (
            gone,
            WaitAction::Abandon {
                error: RelayerError::SessionClosed,
                farewell: Farewell::Silent,
            },
        ),
        WaitEvent::SendFailed(error) => (
            gone,
            WaitAction::Abandon { error, farewell: Farewell::Silent },
        ),
    }
}

/// What one attempt to join under `id` leaves registered, and what it
/// returns. Without a channel under `id` nothing changes. Otherwise the
/// channel is joined where it stands: a pairing that comes about removes
/// it, and a failed attempt leaves it registered and ready, so that whoever
/// comes next finds it unavailable. `delivered` says whether the host of a
/// waiting channel was still listening.
pub open spec fn pairing_step(channels: Map<u128, ChannelState>, id: u128, delivered: bool) -> (
    Map<u128, ChannelState>,
    Result<RelayerSessionShared, RelayerError>,
) {
    if channels.contains_key(id) {
        let joined = join_step(channels[id], delivered);
        (
            if joined.1 is Ok {
                channels.remove(id)
            } else {
                channels.insert(id, joined.0)
            },
            joined.1,
        )
    } else {
        (channels, Err(RelayerError::ChannelNotFound))
    }
}

/// Whether `after` and `joined` are what an attempt to join under `id`
/// makes of `before`, with the host listening or not as `delivered` says.
pub open spec fn paired_as(
    before: RelayerView,
    after: RelayerView,
    id: u128,
    joined: Result<RelayerSessionShared, RelayerError>,
    delivered: bool,
) -> bool {
    &&& after == (RelayerView {
        channels: pairing_step(before.channels, id, delivered).0,
        ..before
    })
    &&& joined == pairing_step(before.channels, id, delivered).1
}

/// What is registered when the attempt of index `i` to join under `id`
/// begins, if `channels` was registered before the first of them and
/// nothing but these attempts happens in between.
pub open spec fn registered_before(
    channels: Map<u128, ChannelState>,
    id: u128,
    delivered: Seq<bool>,
    i: nat,
) -> Map<u128, ChannelState>
    decreases i,
{
    if i == 0 {
        channels
    } else {
        pairing_step(
            registered_before(channels, id, delivered, (i - 1) as nat),
            id,
            delivered[i - 1],
        ).0
    }
}

/// What the attempt of index `i` returns.
pub open spec fn pairing_of(
    channels: Map<u128, ChannelState>,
    id: u128,
    delivered: Seq<bool>,
    i: nat,
) -> Result<RelayerSessionShared, RelayerError> {
    pairing_step(registered_before(channels, id, delivered, i), id, delivered[i as int]).1
}

/// The state of each channel that a map holds.
pub closed spec fn states(channels: Channels) -> Map<u128, ChannelState> {
    registered(channels).map_values(|channel: Channel| channel.state())
}

impl View for Relayer {
    type V = RelayerView;

    closed spec fn view(&self) -> RelayerView {
        RelayerView {
            config: self.config,
            channels: states(self.channels),
            issued: self.issued@,
        }
    }
}

impl Relayer {
    #[verifier::type_invariant]
    spec fn well_formed(self) -> bool {
        forall|id: u128| #[trigger]
            registered(self.channels).contains_key(id) ==> self.issued@.contains(id)
    }

    /// A relayer without channels.
    pub fn new(config: RelayerConfig) -> (relayer: Relayer)
        ensures
            relayer@ == (RelayerView { config, channels: Map::empty(), issued: Set::empty() }),
    {
        Relayer { config, channels: vacant(), issued: Ghost(Set::empty()) }
    }

    pub fn config(&self) -> (config: &RelayerConfig)
        ensures
            *config == self@.config,
    {
        &self.config
    }

    /// The time a single send on a session may take.
    pub fn session_message_timeout(&self) -> (timeout: Duration)
        ensures
            timeout == self@.config.session_message_timeout,
    {
        self.config.session_message_timeout
    }

    /// Whether a channel is registered under `id` right now, waiting or
    /// already joined. Only an identifier that was issued can have one.
    pub fn has_channel(&self, id: &u128) -> (found: bool)
        ensures
            found == self@.channels.contains_key(*id),
            self@.sound(),
    {
        proof {
            use_type_invariant(self);
        }
        holds(&self.channels, id)
    }

    /// Opens a channel for `host` under a given identifier, unless one is
    /// registered under it already: an entry is never overwritten.
    pub fn register(&mut self, id: u128, host: RelayerSessionShared) -> (opened: Result<
        Rendezvous,
        RelayerError,
    >)
        ensures
            opened is Ok <==> !old(self)@.channels.contains_key(id),
            opened matches Err(error) ==> {
                &&& error == RelayerError::ChannelUnavailable
                &&& final(self)@ == old(self)@
            },
            opened matches Ok(rendezvous) ==> {
                &&& rendezvous.id == id
                &&& rendezvous.timeout == old(self)@.config.channel_creation_timeout
                &&& final(self)@.config == old(self)@.config
                &&& final(self)@.issued == old(self)@.issued.insert(id)
                &&& final(self)@.channels.contains_key(id)
                &&& final(self)@.channels.remove(id) == old(self)@.channels
                &&& final(self)@.channels[id] matches ChannelState::Waiting { host: waiting, .. }
                &&& waiting == host
            },
            final(self)@.sound(),
    {
        proof {
            use_type_invariant(&*self);
        }
        if holds(&self.channels, &id) {
            return Err(RelayerError::ChannelUnavailable);
        }
        let (notify, arrival) = tokio::sync::oneshot::channel();
        let timeout = self.config.channel_creation_timeout;
        proof {
            self.issued@ = self.issued@.insert(id);
        }
        let _ = put(&mut self.channels, id, Channel::new(host, notify));
        assert(states(self.channels).remove(id) =~= old(self)@.channels);
        Ok(Rendezvous { id, arrival, timeout })
    }

    /// Opens a channel for `host` under an identifier drawn at random. The
    /// draw decides between the two outcomes that [`Relayer::register`]
    /// has; on success the identifier carries the stamp of a random one. It
    /// fails only when the identifier drawn is taken, so it cannot fail
    /// while no channel is registered under a random identifier.
    pub fn create_new_channel(&mut self, host: RelayerSessionShared) -> (opened: Result<
        Rendezvous,
        RelayerError,
    >)
        ensures
            opened is Err ==> exists|taken: u128| #[trigger]
                is_random(taken) && old(self)@.channels.contains_key(taken),
            opened matches Err(error) ==> {
                &&& error == RelayerError::ChannelUnavailable
                &&& final(self)@ == old(self)@
            },
            opened matches Ok(rendezvous) ==> {
                &&& is_random(rendezvous.id)
                &&& !old(self)@.channels.contains_key(rendezvous.id)
                &&& rendezvous.timeout == old(self)@.config.channel_creation_timeout
                &&& final(self)@.config == old(self)@.config
                &&& final(self)@.issued == old(self)@.issued.insert(rendezvous.id)
                &&& final(self)@.channels.contains_key(rendezvous.id)
                &&& final(self)@.channels.remove(rendezvous.id) == old(self)@.channels
                &&& final(self)@.channels[rendezvous.id] matches ChannelState::Waiting {
                    host: waiting,
                    ..
                }
                &&& waiting == host
            },
            final(self)@.sound(),
    {
        let id = random_identifier();
        let opened = self.register(id, host);
        assert(opened is Err ==> is_random(id) && old(self)@.channels.contains_key(id));
        opened
    }

    /// Pairs `client` with the host that waits under `id`, and returns the
    /// host's session.
    ///
    /// Without a channel under `id` there is nothing to join. Otherwise the
    /// channel is joined where it stands. When the pairing comes about the
    /// channel is removed. When it does not, because the channel was joined
    /// before or because its host has stopped listening, the channel stays
    /// registered and is ready, so that whoever tries next finds it
    /// unavailable. Whether the host of a waiting channel still listens is
    /// the one thing that is not known beforehand.
    pub fn join_channel(&mut self, id: u128, client: &RelayerSessionShared) -> (joined: Result<
        RelayerSessionShared,
        RelayerError,
    >)
        ensures
            paired_as(old(self)@, final(self)@, id, joined, true) || paired_as(
                old(self)@,
                final(self)@,
                id,
                joined,
                false,
            ),
            final(self)@.sound(),
    {
        proof {
            use_type_invariant(&*self);
        }
        match take(&mut self.channels, &id) {
            None => {
                assert(states(self.channels) =~= old(self)@.channels);
                Err(RelayerError::ChannelNotFound)
            },
            Some(mut channel) => {
                match channel.join(client) {
                    Ok(host) => {
                        assert(states(self.channels) =~= old(self)@.channels.remove(id));
                        Ok(host)
                    },
                    Err(error) => {
                        let _ = put(&mut self.channels, id, channel);
                        assert(states(self.channels) =~= old(self)@.channels.insert(
                            id,
                            ChannelState::Ready,
                        ));
                        Err(error)
                    },
                }
            },
        }
    }

    /// One side of a pair, with this relayer's limit on the size of a frame.
    pub fn relay(&self) -> (relay: Relay)
        ensures
            relay@ == (RelayView { max_frame_size: self@.config.max_frame_size, open: true }),
    {
        Relay::new(self.config.max_frame_size)
    }

    /// Decides what the task of the host that waits under `id` does about
    /// `event`, and gives the channel up where the wait is over without a
    /// peer: when the time ran out with the channel still waiting, when the
    /// notifier was lost, and when the host sent an application frame, asked
    /// to close, went away or could not be sent to.
    ///
    /// A timer that runs out on a channel that has been joined, and is
    /// ready or already removed, changes nothing: the client is on its way
    /// through the notifier.
    pub fn waiting(&mut self, id: u128, event: WaitEvent) -> (verdict: WaitAction)
        ensures
            final(self)@ == (RelayerView {
                channels: wait_step(old(self)@.channels, id, event).0,
                ..old(self)@
            }),
            verdict == wait_step(old(self)@.channels, id, event).1,
            final(self)@.sound(),
    {
        proof {
            use_type_invariant(&*self);
        }
        match event {
            WaitEvent::Arrived(client) => WaitAction::Relay(client),
            WaitEvent::NotifierClosed => {
                let _ = take(&mut self.channels, &id);
                WaitAction::Abandon {
                    error: RelayerError::ChannelNotFound,
                    farewell: Farewell::NoPeer,
                }
            },
            WaitEvent::Expired => {
                match take(&mut self.channels, &id) {
                    Some(channel) => {
                        if channel.is_waiting() {
                            assert(states(self.channels) =~= old(self)@.channels.remove(id));
                            WaitAction::Abandon {
                                error: RelayerError::ChannelNotFound,
                                farewell: Farewell::NoPeer,
                            }
                        } else {
                            let _ = put(&mut self.channels, id, channel);
                            assert(states(self.channels) =~= old(self)@.channels);
                            WaitAction::Continue
                        }
                    },
                    None => {
                        assert(states(self.channels) =~= old(self)@.channels);
                        WaitAction::Continue
                    },
                }
            },
            WaitEvent::Received(Inbound::Ping(_)) => WaitAction::Reply(Frame::Pong),
            WaitEvent::Received(Inbound::Pong(_)) => WaitAction::Continue,
            WaitEvent::Received(Inbound::Text(_)) | WaitEvent::Received(Inbound::Binary(_)) => {
                let _ = take(&mut self.channels, &id);
                WaitAction::Abandon {
                    error: RelayerError::UnexpectedMessage,
                    farewell: Farewell::Refused(RelayerError::UnexpectedMessage),
                }
            },
            WaitEvent::Received(Inbound::Close(asked)) => {
                let _ = take(&mut self.channels, &id);
                WaitAction::Abandon {
                    error: RelayerError::SessionClosed,
                    farewell: Farewell::answer(asked),
                }
            },
            WaitEvent::Received(Inbound::Failed) | WaitEvent::Received(Inbound::Ended) => {
                let _ = take(&mut self.channels, &id);
                WaitAction::Abandon {
                    error: RelayerError::SessionClosed,
                    farewell: Farewell::Silent,
                }
            },
            WaitEvent::SendFailed(error) => {
                let _ = take(&mut self.channels, &id);
                WaitAction::Abandon { error, farewell: Farewell::Silent }
            },
        }
    }
}

/// An identifier that was never issued has no channel.
pub proof fn lemma_unissued_has_no_channel(relayer: RelayerView, id: u128)
    requires
        relayer.sound(),
        !relayer.issued.contains(id),
    ensures
        !relayer.channels.contains_key(id),
{
}

/// Joining a waiting channel pairs the client with the host of the channel
/// and removes the channel, or finds that the host has stopped listening
/// and leaves the channel ready.
pub proof fn lemma_waiting_channel_is_joined_once(
    channels: Map<u128, ChannelState>,
    id: u128,
    delivered: bool,
)
    requires
        channels.contains_key(id),
        channels[id] is Waiting,
    ensures
        delivered ==> pairing_step(channels, id, delivered) == (
            channels.remove(id),
            Ok::<RelayerSessionShared, RelayerError>(channels[id]->host),
        ),
        !delivered ==> pairing_step(channels, id, delivered) == (
            channels.insert(id, ChannelState::Ready),
            Err::<RelayerSessionShared, RelayerError>(RelayerError::NotifyHost),
        ),
{
}

/// Whoever tries to join a channel that has been joined before, and still
/// is registered, finds it unavailable, and leaves it as it is.
pub proof fn lemma_joined_channel_is_unavailable(
    channels: Map<u128, ChannelState>,
    id: u128,
    delivered: bool,
)
    requires
        channels.contains_key(id),
        channels[id] is Ready,
    ensures
        pairing_step(channels, id, delivered).0 == channels,
        pairing_step(channels, id, delivered).1 == Err::<RelayerSessionShared, RelayerError>(
            RelayerError::ChannelUnavailable,
        ),
{
    assert(channels.insert(id, ChannelState::Ready) =~= channels);
}

/// A channel whose pairing came about is gone from the registry, and
/// whoever tries the identifier next finds no channel.
pub proof fn lemma_paired_channel_is_gone(
    channels: Map<u128, ChannelState>,
    id: u128,
    delivered: bool,
    later: bool,
)
    requires
        pairing_step(channels, id, delivered).1 is Ok,
    ensures
        !pairing_step(channels, id, delivered).0.contains_key(id),
        pairing_step(pairing_step(channels, id, delivered).0, id, later).1 == Err::<
            RelayerSessionShared,
            RelayerError,
        >(RelayerError::ChannelNotFound),
{
}

/// Once anyone has tried to join under an identifier, no channel waits
/// under it any more.
pub proof fn lemma_no_channel_waits_after_a_join(
    channels: Map<u128, ChannelState>,
    id: u128,
    delivered: Seq<bool>,
    i: nat,
)
    requires
        i >= 1,
    ensures
        registered_before(channels, id, delivered, i).contains_key(id) ==> registered_before(
            channels,
            id,
            delivered,
            i,
        )[id] is Ready,
    decreases i,
{
    if i > 1 {
        lemma_no_channel_waits_after_a_join(channels, id, delivered, (i - 1) as nat);
    }
}

/// However many clients try to join under one identifier, only the first
/// can be paired: every other finds the channel unavailable, or finds no
/// channel once the pairing has removed it.
pub proof fn lemma_one_pairing_per_channel(
    channels: Map<u128, ChannelState>,
    id: u128,
    delivered: Seq<bool>,
    i: nat,
)
    requires
        i >= 1,
    ensures
        pairing_of(channels, id, delivered, i) == Err::<RelayerSessionShared, RelayerError>(
            RelayerError::ChannelUnavailable,
        ) || pairing_of(channels, id, delivered, i) == Err::<RelayerSessionShared, RelayerError>(
            RelayerError::ChannelNotFound,
        ),
{
    lemma_no_channel_waits_after_a_join(channels, id, delivered, i);
}

/// A channel that nobody joined before its time ran out is removed when
/// the timer fires, its host is closed for want of a peer, and a join that
/// comes late finds no channel.
pub proof fn lemma_expired_channel_is_gone(
    channels: Map<u128, ChannelState>,
    id: u128,
    delivered: bool,
)
    requires
        channels.contains_key(id),
        channels[id] is Waiting,
    ensures
        wait_step(channels, id, WaitEvent::Expired) == (
            channels.remove(id),
            WaitAction::Abandon {
                error: RelayerError::ChannelNotFound,
                farewell: Farewell::NoPeer,
            },
        ),
        pairing_step(wait_step(channels, id, WaitEvent::Expired).0, id, delivered).1 == Err::<
            RelayerSessionShared,
            RelayerError,
        >(RelayerError::ChannelNotFound),
{
}

/// A timer that fires on a channel that has been joined removes nothing
/// and lets the wait go on.
pub proof fn lemma_timer_spares_joined_channel(channels: Map<u128, ChannelState>, id: u128)
    requires
        !(channels.contains_key(id) && channels[id] is Waiting),
    ensures
        wait_step(channels, id, WaitEvent::Expired) == (channels, WaitAction::Continue),
{
}

/// Whether the event tells that the host is gone: it asked to close, its
/// stream broke or ended, or a send to it failed.
pub open spec fn host_gone(event: WaitEvent) -> bool {
    match event {
        WaitEvent::Received(received) => received.is_end(),
        WaitEvent::SendFailed(_) => true,
        _ => false,
    }
}

/// When the host goes away while its channel waits, the channel is
/// removed, and a join that comes after finds no channel.
pub proof fn lemma_host_gone_channel_is_gone(
    channels: Map<u128, ChannelState>,
    id: u128,
    event: WaitEvent,
    delivered: bool,
)
    requires
        host_gone(event),
    ensures
        !wait_step(channels, id, event).0.contains_key(id),
        wait_step(channels, id, event).1 is Abandon,
        pairing_step(wait_step(channels, id, event).0, id, delivered).1 == Err::<
            RelayerSessionShared,
            RelayerError,
        >(RelayerError::ChannelNotFound),
{
}

/// No step of a host's wait touches a channel other than its own.
pub proof fn lemma_wait_keeps_other_channels(
    channels: Map<u128, ChannelState>,
    id: u128,
    event: WaitEvent,
    other: u128,
)
    requires
        other != id,
    ensures
        wait_step(channels, id, event).0.contains_key(other) == channels.contains_key(other),
        channels.contains_key(other) ==> wait_step(channels, id, event).0[other]
            == channels[other],
{
}

/// How to part with a client whose attempt to join failed.
pub fn turned_away(error: RelayerError) -> (farewell: Farewell)
    ensures
        farewell == Farewell::Refused(error),
{
    Farewell::Refused(error)
}

} // verus!
