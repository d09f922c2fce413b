//! A pairing slot: one host waiting for one client.
//!
//! A channel is made waiting and becomes ready the instant a client tries to
//! join it. It never goes back: whoever holds the channel exclusively when
//! it is waiting is the one joiner it will ever have.

use crate::error::RelayerError;
use crate::session::RelayerSessionShared;
use dashmap::DashMap;
use std::sync::Arc;
use tokio::sync::oneshot::Sender;
use vstd::prelude::*;

verus! {

/// The two states of a channel.
pub enum ChannelState {
    Waiting {
        host: RelayerSessionShared,
        /// Hands the client's session to the task that waits for the host.
        notify: Sender<RelayerSessionShared>,
    },
    Ready,
}

/// A channel: nothing but its state.
pub struct Channel {
    state: ChannelState,
}

/// The channels that are open, by identifier.
pub type Channels = DashMap<u128, Channel>;

/// `Arc::clone` gives another handle to the same session.
#[verifier::external_body]
fn another(session: &RelayerSessionShared) -> (handle: RelayerSessionShared)
    ensures
        handle == *session,
{
    Arc::clone(session)
}

impl Default for ChannelState {
    fn default() -> (state: ChannelState)
        ensures
            state == ChannelState::Ready,
    {
        ChannelState::Ready
    }
}

/// What one attempt to join does to a channel in `state`, and what it
/// returns. `delivered` says whether the host was still listening when the
/// client was announced; it matters only to the attempt that finds the
/// channel waiting.
pub open spec fn join_step(state: ChannelState, delivered: bool) -> (
    ChannelState,
    Result<RelayerSessionShared, RelayerError>,
) {
    match state {
        ChannelState::Waiting { host, notify } => (
            ChannelState::Ready,
            if delivered {
                Ok(host)
            } else {
                Err(RelayerError::NotifyHost)
            },
        ),
        ChannelState::Ready => (ChannelState::Ready, Err(RelayerError::ChannelUnavailable)),
    }
}

/// The state in which the attempt of index `i` finds a channel that was in
/// `state` before the first of them.
pub open spec fn state_before(state: ChannelState, delivered: Seq<bool>, i: nat) -> ChannelState
    decreases i,
{
    if i == 0 {
        state
    } else {
        join_step(state_before(state, delivered, (i - 1) as nat), delivered[i - 1]).0
    }
}

/// What the attempt of index `i` returns.
pub open spec fn result_of(state: ChannelState, delivered: Seq<bool>, i: nat) -> Result<
    RelayerSessionShared,
    RelayerError,
> {
    join_step(state_before(state, delivered, i), delivered[i as int]).1
}

impl Channel {
    pub closed spec fn state(&self) -> ChannelState {
        self.state
    }

    /// Whether the channel still waits for its one joiner.
    pub fn is_waiting(&self) -> (waiting: bool)
        ensures
            waiting == (self.state() is Waiting),
    {
        match &self.state {
            ChannelState::Waiting { .. } => true,
            ChannelState::Ready => false,
        }
    }

    /// A channel on which `host` waits.
    pub fn new(host: RelayerSessionShared, notify: Sender<RelayerSessionShared>) -> (channel:
        Channel)
        ensures
            channel.state() == (ChannelState::Waiting { host, notify }),
    {
        Channel { state: ChannelState::Waiting { host, notify } }
    }

    /// Tries to complete the pairing: announces `client` to the host's task
    /// and returns the host's session.
    ///
    /// A channel that is not waiting is left as it is. A waiting channel is
    /// ready afterwards whatever happens, so it is used up even when the
    /// host turns out to have stopped listening. What is sent through its
    /// notifier is [`announcement`] of the notifier and the client, and
    /// which of the two outcomes comes about is [`join_outcome`] of what
    /// the send returned.
    pub fn join(&mut self, client: &RelayerSessionShared) -> (joined: Result<
        RelayerSessionShared,
        RelayerError,
    >)
        ensures
            final(self).state() == ChannelState::Ready,
            joined == join_step(old(self).state(), true).1 || joined == join_step(
                old(self).state(),
                false,
            ).1,
            old(self).state() is Ready ==> *final(self) == *old(self),
    {
        let mut state = ChannelState::Ready;
        core::mem::swap(&mut self.state, &mut state);
        match state {
            ChannelState::Waiting { host, notify } => {
                let handed = announcement(notify, client);
                join_outcome(host, handed.0.send(handed.1))
            },
            ChannelState::Ready => Err(RelayerError::ChannelUnavailable),
        }
    }
}

/// What is handed to the notifier when a client joins: the channel's own
/// notifier, and a handle to the session of that client and of no other.
pub fn announcement(notify: Sender<RelayerSessionShared>, client: &RelayerSessionShared) -> (handed:
    (Sender<RelayerSessionShared>, RelayerSessionShared))
    ensures
        handed.0 == notify,
        handed.1 == *client,
{
    (notify, another(client))
}

/// What joining a waiting channel amounts to, given its host and what
/// announcing the client returned.
pub open spec fn join_verdict(
    host: RelayerSessionShared,
    announced: Result<(), RelayerSessionShared>,
) -> Result<RelayerSessionShared, RelayerError> {
    match announced {
        Ok(_) => Ok(host),
        Err(_) => Err(RelayerError::NotifyHost),
    }
}

/// Computes [`join_verdict`].
pub fn join_outcome(
    host: RelayerSessionShared,
    announced: Result<(), RelayerSessionShared>,
) -> (joined: Result<RelayerSessionShared, RelayerError>)
    ensures
        joined == join_verdict(host, announced),
{
    match announced {
        Ok(()) => Ok(host),
        Err(_) => Err(RelayerError::NotifyHost),
    }
}

/// After the first attempt a channel is ready, whatever it was.
pub proof fn lemma_ready_after_first(state: ChannelState, delivered: Seq<bool>, i: nat)
    requires
        i >= 1,
    ensures
        state_before(state, delivered, i) == ChannelState::Ready,
    decreases i,
{
    if i > 1 {
        lemma_ready_after_first(state, delivered, (i - 1) as nat);
    }
}

/// However many clients try to join one waiting channel, and in whatever
/// order they get hold of it, only the first can be paired: it gets the
/// host, or learns that the host has stopped listening. Every other finds
/// the channel unavailable, and once anyone has tried the channel is ready.
pub proof fn lemma_single_winner(state: ChannelState, delivered: Seq<bool>)
    requires
        state is Waiting,
    ensures
        forall|i: nat|
            1 <= i < delivered.len() ==> #[trigger] result_of(state, delivered, i) == Err::<
                RelayerSessionShared,
                RelayerError,
            >(RelayerError::ChannelUnavailable),
        forall|i: nat, j: nat|
            i < delivered.len() && j < delivered.len() && (#[trigger] result_of(
                state,
                delivered,
                i,
            )) is Ok && (#[trigger] result_of(state, delivered, j)) is Ok ==> i == j,
        forall|i: nat|
            i < delivered.len() && (#[trigger] result_of(state, delivered, i)) is Ok
                ==> result_of(state, delivered, i) == Ok::<RelayerSessionShared, RelayerError>(
                state->host,
            ),
        delivered.len() >= 1 ==> state_before(state, delivered, delivered.len())
            == ChannelState::Ready,
{
    assert forall|i: nat| 1 <= i < delivered.len() implies #[trigger] result_of(
        state,
        delivered,
        i,
    ) == Err::<RelayerSessionShared, RelayerError>(RelayerError::ChannelUnavailable) by {
        lemma_ready_after_first(state, delivered, i);
    }
    if delivered.len() >= 1 {
        lemma_ready_after_first(state, delivered, delivered.len());
    }
}

} // verus!
