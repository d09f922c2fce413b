//! One live WebSocket connection, as the relay holds it.
//!
//! A session has two slots. The connection slot holds the handle through
//! which frames are sent; it is emptied exactly once, when the session is
//! closed, and every operation on an empty slot fails. The notifier slot holds
//! the armed half of a one-shot signal by which the other side of a pair
//! asks this session's task to wind down.
//!
//! Nothing here waits. A send is prepared by [`RelayerSession::ping`] and
//! its siblings, which hand out the connection with the frame and the time
//! allowed; the caller performs it and gives what came back to
//! [`delivered`].

use crate::error::RelayerError;
use crate::frame::CloseReason;
use crate::frame::Frame;
use crate::identifier::is_random;
use crate::identifier::random_identifier;
use std::sync::Arc;
use std::time::Duration;
use tokio::sync::oneshot::Sender;
use tokio::sync::Mutex;
use tokio::time::error::Elapsed;
use vstd::prelude::*;

verus! {

/// `actix_ws::Session`: the handle through which frames are sent into one
/// WebSocket. Carried through, never inspected.
#[verifier::external_type_specification]
#[verifier::external_body]
pub struct ExConnection(actix_ws::Session);

/// `tokio::sync::oneshot::Sender`: the sending half of a one-shot signal.
#[verifier::external_type_specification]
#[verifier::external_body]
#[verifier::reject_recursive_types(T)]
pub struct ExSender<T>(tokio::sync::oneshot::Sender<T>);

/// `tokio::sync::Mutex`: the lock behind which a session is shared.
#[verifier::external_type_specification]
#[verifier::external_body]
#[verifier::reject_recursive_types(T)]
pub struct ExMutex<T: ?Sized>(tokio::sync::Mutex<T>);

/// `Sender::send` consumes the sender. When the receiving half is gone the
/// value comes back in `Err`; whether it is gone is not known beforehand.
pub assume_specification<T>[ Sender::<T>::send ](sender: Sender<T>, value: T) -> (outcome: Result<
    (),
    T,
>)
    ensures
        outcome is Err ==> outcome->Err_0 == value,
;

/// The lock that is made of a session: unlocked, and holding that session.
pub uninterp spec fn locked(session: SessionView) -> Mutex<RelayerSession>;

/// `tokio::sync::Mutex::new` makes a lock of nothing but the value it is
/// given and a semaphore with one permit, so the lock is named by the
/// session it was made of. What it holds later changes under whoever locks
/// it, and of that nothing is stated.
#[verifier::external_body]
fn behind_lock(session: RelayerSession) -> (lock: Mutex<RelayerSession>)
    ensures
        lock == locked(session@),
{
    Mutex::new(session)
}

/// A session: its identifier, the time it allows a send, and its two
/// slots.
pub struct RelayerSession {
    id: u128,
    message_timeout: Duration,
    inner: Option<actix_ws::Session>,
    notify: Option<Sender<()>>,
}

/// A session as its tasks share it.
pub type RelayerSessionShared = Arc<Mutex<RelayerSession>>;

/// What a session is, for the purpose of stating what its operations do.
pub struct SessionView {
    pub id: u128,
    /// The time each send on this session is allowed.
    pub message_timeout: Duration,
    /// The connection slot.
    pub connection: Option<actix_ws::Session>,
    /// The notifier slot.
    pub notifier: Option<Sender<()>>,
}

/// A send that has been cleared and is still to be performed: `frame` goes
/// out on `connection` and must be through within `timeout`.
pub struct Outbound<'a> {
    pub connection: &'a mut actix_ws::Session,
    pub frame: Frame,
    pub timeout: Duration,
}

/// A closure that has been cleared and is still to be performed: the
/// connection, taken out of its session, and the reason to give the peer.
pub struct Closing {
    pub connection: actix_ws::Session,
    pub reason: Option<CloseReason>,
}

/// What clearing `frame` on a session gives. With the connection slot full
/// the send is handed out on the connection that the slot holds, with the
/// frame as it is and the time that the session allows. With the slot empty
/// the session is closed.
pub open spec fn cleared_for(
    session: SessionView,
    frame: Frame,
    cleared: Result<Outbound<'_>, RelayerError>,
) -> bool {
    match cleared {
        Ok(send) => {
            &&& session.connection == Some(*send.connection)
            &&& send.frame == frame
            &&& send.timeout == session.message_timeout
        },
        Err(error) => session.connection is None && error == RelayerError::Closed,
    }
}

impl View for RelayerSession {
    type V = SessionView;

    closed spec fn view(&self) -> SessionView {
        SessionView {
            id: self.id,
            message_timeout: self.message_timeout,
            connection: self.inner,
            notifier: self.notify,
        }
    }
}

impl RelayerSession {
    /// A session under a given identifier: the connection in its slot, the
    /// notifier slot empty.
    pub fn with_id(id: u128, session: actix_ws::Session, message_timeout: Duration) -> (created:
        RelayerSession)
        ensures
            created@ == (SessionView {
                id,
                message_timeout,
                connection: Some(session),
                notifier: None,
            }),
    {
        RelayerSession { id, message_timeout, inner: Some(session), notify: None }
    }

    /// A session under an identifier drawn at random for it.
    pub fn open(session: actix_ws::Session, message_timeout: Duration) -> (created:
        RelayerSession)
        ensures
            is_random(created@.id),
            created@ == (SessionView {
                id: created@.id,
                message_timeout,
                connection: Some(session),
                notifier: None,
            }),
    {
        RelayerSession::with_id(random_identifier(), session, message_timeout)
    }

    /// A session as [`RelayerSession::open`] makes it, behind the lock
    /// under which its tasks share it: the lock is made of a session that
    /// has an identifier drawn at random, the connection in its slot and the
    /// notifier slot empty.
    pub fn new(session: actix_ws::Session, message_timeout: Duration) -> (shared:
        RelayerSessionShared)
        ensures
            exists|id: u128| #[trigger]
                is_random(id) && *shared == locked(
                    SessionView { id, message_timeout, connection: Some(session), notifier: None },
                ),
    {
        let created = RelayerSession::open(session, message_timeout);
        let ghost id = created@.id;
        let shared = Arc::new(behind_lock(created));
        assert(is_random(id) && *shared == locked(
            SessionView { id, message_timeout, connection: Some(session), notifier: None },
        ));
        shared
    }

    pub fn id(&self) -> (id: u128)
        ensures
            id == self@.id,
    {
        self.id
    }

    pub fn message_timeout(&self) -> (timeout: Duration)
        ensures
            timeout == self@.message_timeout,
    {
        self.message_timeout
    }

    /// Clears `frame` for sending on this session, as [`cleared_for`] says.
    /// Nothing changes but the connection in its slot, which afterwards is
    /// whatever the caller has made of the one handed out.
    pub fn send(&mut self, frame: Frame) -> (cleared: Result<Outbound<'_>, RelayerError>)
        ensures
            cleared_for(old(self)@, frame, cleared),
            final(self)@ == match cleared {
                Ok(send) => SessionView {
                    connection: Some(*final(send.connection)),
                    ..old(self)@
                },
                Err(_) => old(self)@,
            },
    {
        let timeout = self.message_timeout;
        match &mut self.inner {
            Some(connection) => Ok(Outbound { connection, frame, timeout }),
            None => Err(RelayerError::Closed),
        }
    }

    /// Clears a ping for sending on this session.
    pub fn ping(&mut self) -> (cleared: Result<Outbound<'_>, RelayerError>)
        ensures
            cleared_for(old(self)@, Frame::Ping, cleared),
            final(self)@ == match cleared {
                Ok(send) => SessionView {
                    connection: Some(*final(send.connection)),
                    ..old(self)@
                },
                Err(_) => old(self)@,
            },
    {
        self.send(Frame::Ping)
    }

    /// Clears a pong for sending on this session.
    pub fn pong(&mut self) -> (cleared: Result<Outbound<'_>, RelayerError>)
        ensures
            cleared_for(old(self)@, Frame::Pong, cleared),
            final(self)@ == match cleared {
                Ok(send) => SessionView {
                    connection: Some(*final(send.connection)),
                    ..old(self)@
                },
                Err(_) => old(self)@,
            },
    {
        self.send(Frame::Pong)
    }

    /// Clears a text message for sending on this session, as it is.
    pub fn text(&mut self, value: String) -> (cleared: Result<Outbound<'_>, RelayerError>)
        ensures
            cleared_for(old(self)@, Frame::Text(value), cleared),
            final(self)@ == match cleared {
                Ok(send) => SessionView {
                    connection: Some(*final(send.connection)),
                    ..old(self)@
                },
                Err(_) => old(self)@,
            },
    {
        self.send(Frame::Text(value))
    }

    /// Clears a binary message for sending on this session, as it is.
    pub fn binary(&mut self, value: Vec<u8>) -> (cleared: Result<Outbound<'_>, RelayerError>)
        ensures
            cleared_for(old(self)@, Frame::Binary(value), cleared),
            final(self)@ == match cleared {
                Ok(send) => SessionView {
                    connection: Some(*final(send.connection)),
                    ..old(self)@
                },
                Err(_) => old(self)@,
            },
    {
        self.send(Frame::Binary(value))
    }

    /// Asks the task that armed the notifier to close this session. A
    /// session whose connection is gone is closed already and is left as it
    /// is. Otherwise the notifier is spent by the attempt, also when nobody
    /// listens any more; which of the two outcomes an armed notifier gives
    /// is [`close_verdict`] of what the signal returned.
    pub fn close(&mut self) -> (asked: Result<(), RelayerError>)
        ensures
            old(self)@.connection is None ==> asked == Err::<(), RelayerError>(
                RelayerError::Closed,
            ) && final(self)@ == old(self)@,
            old(self)@.connection is Some && old(self)@.notifier is None ==> asked == Err::<
                (),
                RelayerError,
            >(RelayerError::SessionNotify) && final(self)@ == old(self)@,
            old(self)@.connection is Some && old(self)@.notifier is Some ==> {
                &&& final(self)@ == (SessionView { notifier: None, ..old(self)@ })
                &&& asked == close_verdict(Ok(())) || asked == close_verdict(Err(()))
            },
    {
        if self.inner.is_none() {
            return Err(RelayerError::Closed);
        }
        match self.notify.take() {
            None => Err(RelayerError::SessionNotify),
            Some(sender) => close_outcome(sender.send(())),
        }
    }

    /// Takes the connection out of its slot, to be closed with `reason`.
    /// A second call finds the slot empty.
    pub fn close_internal(&mut self, reason: Option<CloseReason>) -> (cleared: Result<
        Closing,
        RelayerError,
    >)
        ensures
            final(self)@ == (SessionView { connection: None, ..old(self)@ }),
            cleared is Ok <==> old(self)@.connection is Some,
            cleared matches Ok(closing) ==> old(self)@.connection == Some(closing.connection)
                && closing.reason == reason,
            cleared matches Err(error) ==> error == RelayerError::Closed,
    {
        match self.inner.take() {
            Some(connection) => Ok(Closing { connection, reason }),
            None => Err(RelayerError::Closed),
        }
    }

    /// Arms the notifier of a session that is still open. An armed notifier
    /// is never replaced, and a closed session is never armed: in both cases
    /// the sender that was brought is dropped.
    pub fn set_notify(&mut self, sender: Sender<()>) -> (armed: Result<(), RelayerError>)
        ensures
            armed is Ok <==> old(self)@.connection is Some && old(self)@.notifier is None,
            armed is Ok ==> final(self)@ == (SessionView { notifier: Some(sender), ..old(self)@ }),
            armed is Err ==> final(self)@ == old(self)@,
            old(self)@.connection is None ==> armed == Err::<(), RelayerError>(
                RelayerError::Closed,
            ),
            old(self)@.connection is Some && old(self)@.notifier is Some ==> armed == Err::<
                (),
                RelayerError,
            >(RelayerError::SessionNotify),
    {
        if self.inner.is_none() {
            return Err(RelayerError::Closed);
        }
        if self.notify.is_some() {
            return Err(RelayerError::SessionNotify);
        }
        self.notify = Some(sender);
        Ok(())
    }
}

/// What a request to close amounts to, given what the signal returned: a
/// signal that found nobody listening is reported as an unavailable channel.
pub open spec fn close_verdict(signalled: Result<(), ()>) -> Result<(), RelayerError> {
    match signalled {
        Ok(_) => Ok(()),
        Err(_) => Err(RelayerError::ChannelUnavailable),
    }
}

/// Computes [`close_verdict`].
pub fn close_outcome(signalled: Result<(), ()>) -> (asked: Result<(), RelayerError>)
    ensures
        asked == close_verdict(signalled),
{
    match signalled {
        Ok(()) => Ok(()),
        Err(_) => Err(RelayerError::ChannelUnavailable),
    }
}

/// What a send amounts to, given what came back from performing it under
/// its timer: a timer that ran out is a deadline elapsed, a transport that
/// refused the frame is a closed session.
pub fn delivered(outcome: Result<Result<(), actix_ws::Closed>, Elapsed>) -> (sent: Result<
    (),
    RelayerError,
>)
    ensures
        outcome is Err ==> sent == Err::<(), RelayerError>(RelayerError::DeadlineElapsed),
        outcome matches Ok(Err(_)) ==> sent == Err::<(), RelayerError>(
            RelayerError::SessionClosed,
        ),
        outcome matches Ok(Ok(_)) ==> sent == Ok::<(), RelayerError>(()),
{
    match outcome {
        Err(elapsed) => Err(RelayerError::from(elapsed)),
        Ok(Err(closed)) => Err(RelayerError::from(closed)),
        Ok(Ok(())) => Ok(()),
    }
}

/// What closing a connection amounts to, given what the transport
/// returned: a connection that was closed already is a closed session.
pub fn closed(outcome: Result<(), actix_ws::Closed>) -> (done: Result<(), RelayerError>)
    ensures
        outcome is Ok ==> done == Ok::<(), RelayerError>(()),
        outcome is Err ==> done == Err::<(), RelayerError>(RelayerError::Closed),
{
    match outcome {
        Ok(()) => Ok(()),
        Err(_) => Err(RelayerError::Closed),
    }
}

} // verus!
