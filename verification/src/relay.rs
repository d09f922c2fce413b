//! Forwarding between two paired sessions.
//!
//! Each side of a pair has a task that reads its own connection and feeds
//! what happens into a [`Relay`]. Application frames go to the counterpart
//! as they are; pings are answered on the own connection; a close frame, a
//! broken stream, a failed send or an oversized frame ends the pair. Once a
//! relay has closed it stays closed and asks for nothing more.

use crate::error::RelayerError;
use crate::frame::Farewell;
use crate::frame::Frame;
use crate::frame::Inbound;
use vstd::prelude::*;
use vstd::utf8::encode_utf8;

verus! {

/// One side of a pair.
pub struct Relay {
    max_frame_size: usize,
    open: bool,
}

/// What a relay is, for the purpose of stating what a step does.
pub struct RelayView {
    /// The largest payload, in bytes, that is forwarded.
    pub max_frame_size: usize,
    /// Whether the pair is still alive as far as this side knows.
    pub open: bool,
}

/// What can happen to one side of a pair.
#[derive(Debug, PartialEq, Eq)]
pub enum RelayEvent {
    /// The own connection yielded something.
    Received(Inbound),
    /// It is time for a keep-alive ping.
    KeepAlive,
    /// The counterpart asked this side to close.
    CloseRequested,
    /// A send that an earlier step asked for did not go through.
    SendFailed(RelayerError),
}

/// What to do about it.
#[derive(Debug, PartialEq, Eq)]
pub enum RelayAction {
    /// Send this frame to the counterpart.
    Forward(Frame),
    /// Send this frame on the own connection.
    Reply(Frame),
    /// Nothing to do; go on.
    Continue,
    /// Close the own session with this farewell, ask the counterpart to
    /// close too if `notify_peer` says so, and stop.
    Teardown { farewell: Farewell, notify_peer: bool },
    /// The relay has closed before; stop.
    Stopped,
}

impl RelayView {
    /// The same side, closed.
    pub open spec fn shut(self) -> RelayView {
        RelayView { open: false, ..self }
    }
}

/// One step of one side: the state it leaves and what it asks for.
pub open spec fn relay_step(state: RelayView, event: RelayEvent) -> (RelayView, RelayAction) {
    if !state.open {
        (state, RelayAction::Stopped)
    } else {
        match event {
            RelayEvent::Received(Inbound::Text(text)) => if encode_utf8(text@).len()
                > state.max_frame_size {
                (
                    state.shut(),
                    RelayAction::Teardown { farewell: Farewell::Oversized, notify_peer: true },
                )
            } else {
                (state, RelayAction::Forward(Frame::Text(text)))
            },
            RelayEvent::Received(Inbound::Binary(bytes)) => if bytes@.len()
                > state.max_frame_size {
                (
                    state.shut(),
                    RelayAction::Teardown { farewell: Farewell::Oversized, notify_peer: true },
                )
            } else {
                (state, RelayAction::Forward(Frame::Binary(bytes)))
            },
            RelayEvent::Received(Inbound::Ping(_)) => (state, RelayAction::Reply(Frame::Pong)),
            RelayEvent::Received(Inbound::Pong(_)) => (state, RelayAction::Continue),
            RelayEvent::Received(Inbound::Close(asked)) => (
                state.shut(),
                RelayAction::Teardown { farewell: Farewell::answering(asked), notify_peer: true },
            ),
            RelayEvent::Received(Inbound::Failed) | RelayEvent::Received(Inbound::Ended) => (
                state.shut(),
                RelayAction::Teardown { farewell: Farewell::Silent, notify_peer: true },
            ),
            RelayEvent::KeepAlive => (state, RelayAction::Reply(Frame::Ping)),
            RelayEvent::CloseRequested => (
                state.shut(),
                RelayAction::Teardown { farewell: Farewell::Silent, notify_peer: false },
            ),
            RelayEvent::SendFailed(_) => (
                state.shut(),
                RelayAction::Teardown { farewell: Farewell::Silent, notify_peer: true },
            ),
        }
    }
}

/// The state in which the event of index `i` finds a relay that was in
/// `state` before the first of them.
pub open spec fn state_before(state: RelayView, events: Seq<RelayEvent>, i: nat) -> RelayView
    decreases i,
{
    if i == 0 {
        state
    } else {
        relay_step(state_before(state, events, (i - 1) as nat), events[i - 1]).0
    }
}

/// What the step on the event of index `i` asks for.
pub open spec fn action_of(state: RelayView, events: Seq<RelayEvent>, i: nat) -> RelayAction {
    relay_step(state_before(state, events, i), events[i as int]).1
}

/// The frames that the first `n` events had forwarded, in order.
pub open spec fn forwarded(state: RelayView, events: Seq<RelayEvent>, n: nat) -> Seq<Frame>
    decreases n,
{
    if n == 0 {
        Seq::empty()
    } else {
        let before = forwarded(state, events, (n - 1) as nat);
        match action_of(state, events, (n - 1) as nat) {
            RelayAction::Forward(frame) => before.push(frame),
            _ => before,
        }
    }
}

/// The application frames that the peer sent among the first `n` events,
/// in order.
pub open spec fn offered(events: Seq<RelayEvent>, n: nat) -> Seq<Frame>
    decreases n,
{
    if n == 0 {
        Seq::empty()
    } else {
        let before = offered(events, (n - 1) as nat);
        match events[n - 1] {
            RelayEvent::Received(Inbound::Text(text)) => before.push(Frame::Text(text)),
            RelayEvent::Received(Inbound::Binary(bytes)) => before.push(Frame::Binary(bytes)),
            _ => before,
        }
    }
}

/// Whether the event ends a pair that is alive: everything but frames
/// within the limit, pings, pongs and keep-alive ticks.
pub open spec fn fatal(state: RelayView, event: RelayEvent) -> bool {
    match event {
        RelayEvent::Received(Inbound::Text(text)) => encode_utf8(text@).len()
            > state.max_frame_size,
        RelayEvent::Received(Inbound::Binary(bytes)) => bytes@.len() > state.max_frame_size,
        RelayEvent::Received(Inbound::Ping(_)) => false,
        RelayEvent::Received(Inbound::Pong(_)) => false,
        RelayEvent::KeepAlive => false,
        _ => true,
    }
}

impl View for Relay {
    type V = RelayView;

    closed spec fn view(&self) -> RelayView {
        RelayView { max_frame_size: self.max_frame_size, open: self.open }
    }
}

impl Relay {
    /// One side of a pair that has just been formed.
    pub fn new(max_frame_size: usize) -> (relay: Relay)
        ensures
            relay@ == (RelayView { max_frame_size, open: true }),
    {
        Relay { max_frame_size, open: true }
    }

    pub fn is_open(&self) -> (open: bool)
        ensures
            open == self@.open,
    {
        self.open
    }

    /// Takes one step: decides what to do about `event`.
    pub fn step(&mut self, event: RelayEvent) -> (action: RelayAction)
        ensures
            final(self)@ == relay_step(old(self)@, event).0,
            action == relay_step(old(self)@, event).1,
    {
        if !self.open {
            return RelayAction::Stopped;
        }
        match event {
            RelayEvent::Received(Inbound::Text(text)) => {
                if text.as_str().as_bytes().len() > self.max_frame_size {
                    self.open = false;
                    RelayAction::Teardown { farewell: Farewell::Oversized, notify_peer: true }
                } else {
                    RelayAction::Forward(Frame::Text(text))
                }
            },
            RelayEvent::Received(Inbound::Binary(bytes)) => {
                if bytes.len() > self.max_frame_size {
                    self.open = false;
                    RelayAction::Teardown { farewell: Farewell::Oversized, notify_peer: true }
                } else {
                    RelayAction::Forward(Frame::Binary(bytes))
                }
            },
            RelayEvent::Received(Inbound::Ping(_)) => RelayAction::Reply(Frame::Pong),
            RelayEvent::Received(Inbound::Pong(_)) => RelayAction::Continue,
            RelayEvent::Received(Inbound::Close(asked)) => {
                self.open = false;
                RelayAction::Teardown { farewell: Farewell::answer(asked), notify_peer: true }
            },
            RelayEvent::Received(Inbound::Failed) | RelayEvent::Received(Inbound::Ended) => {
                self.open = false;
                RelayAction::Teardown { farewell: Farewell::Silent, notify_peer: true }
            },
            RelayEvent::KeepAlive => RelayAction::Reply(Frame::Ping),
            RelayEvent::CloseRequested => {
                self.open = false;
                RelayAction::Teardown { farewell: Farewell::Silent, notify_peer: false }
            },
            RelayEvent::SendFailed(_) => {
                self.open = false;
                RelayAction::Teardown { farewell: Farewell::Silent, notify_peer: true }
            },
        }
    }
}

/// A relay that is closed before some event is closed before every later
/// one.
pub proof fn lemma_closed_for_good(state: RelayView, events: Seq<RelayEvent>, i: nat, j: nat)
    requires
        i <= j,
        !state_before(state, events, i).open,
    ensures
        !state_before(state, events, j).open,
    decreases j,
{
    if i < j {
        lemma_closed_for_good(state, events, i, (j - 1) as nat);
    }
}

/// While a pair is alive, a frame that one side sends reaches the other as
/// it was sent and in the order in which it was sent: if the relay is still
/// open after `n` events, what it has forwarded is exactly the application
/// frames among them.
pub proof fn lemma_forwarded_verbatim_in_order(state: RelayView, events: Seq<RelayEvent>, n: nat)
    requires
        n <= events.len(),
        state_before(state, events, n).open,
    ensures
        forwarded(state, events, n) == offered(events, n),
    decreases n,
{
    if n > 0 {
        let m = (n - 1) as nat;
        if !state_before(state, events, m).open {
            lemma_closed_for_good(state, events, m, n);
        }
        lemma_forwarded_verbatim_in_order(state, events, m);
    }
}

/// Whatever happens, nothing is forwarded that the peer did not send, and
/// nothing out of order: what has been forwarded is the beginning of what
/// was offered.
pub proof fn lemma_forwarded_is_prefix(state: RelayView, events: Seq<RelayEvent>, n: nat)
    requires
        n <= events.len(),
    ensures
        forwarded(state, events, n).is_prefix_of(offered(events, n)),
    decreases n,
{
    if n > 0 {
        let m = (n - 1) as nat;
        lemma_forwarded_is_prefix(state, events, m);
        if state_before(state, events, n).open {
            lemma_forwarded_verbatim_in_order(state, events, n);
        } else if state_before(state, events, m).open {
            lemma_forwarded_verbatim_in_order(state, events, m);
        }
    }
}

/// If a side's connection breaks, times out or closes, that side closes its
/// own session and asks the counterpart to close, and from then on it
/// relays nothing: every later step answers that the relay has stopped.
pub proof fn lemma_nothing_after_failure(state: RelayView, events: Seq<RelayEvent>, k: nat, i: nat)
    requires
        k < i < events.len(),
        state_before(state, events, k).open,
        fatal(state_before(state, events, k), events[k as int]),
    ensures
        action_of(state, events, k) is Teardown,
        events[k as int] !is CloseRequested ==> action_of(state, events, k)->notify_peer,
        action_of(state, events, i) == RelayAction::Stopped,
        forwarded(state, events, i) == forwarded(state, events, k),
    decreases i,
{
    assert(!state_before(state, events, k + 1).open);
    lemma_closed_for_good(state, events, k + 1, i);
    if i > k + 1 {
        lemma_nothing_after_failure(state, events, k, (i - 1) as nat);
    } else {
        assert(forwarded(state, events, i) == forwarded(state, events, k));
    }
}

/// Teardown is paired: the request to close that one side sends when it
/// tears down makes the other side tear down too, without asking back.
pub proof fn lemma_teardown_is_paired(side: RelayView, event: RelayEvent, other: RelayView)
    requires
        side.open,
        other.open,
        fatal(side, event),
    ensures
        !relay_step(side, event).0.open,
        !relay_step(other, RelayEvent::CloseRequested).0.open,
        relay_step(other, RelayEvent::CloseRequested).1 == (RelayAction::Teardown {
            farewell: Farewell::Silent,
            notify_peer: false,
        }),
{
}

} // verus!
