use actix_web::FromRequest;
use std::sync::Arc;
use std::time::Duration;
use xswd_relayer::config::RelayerConfig;
use xswd_relayer::error::RelayerError;
use xswd_relayer::frame::CloseReason;
use xswd_relayer::frame::Farewell;
use xswd_relayer::frame::Frame;
use xswd_relayer::frame::Inbound;
use xswd_relayer::identifier::STAMP_MASK;
use xswd_relayer::identifier::RANDOM_STAMP;
use xswd_relayer::relay::RelayAction;
use xswd_relayer::relay::RelayEvent;
use xswd_relayer::relayer::turned_away;
use xswd_relayer::relayer::Relayer;
use xswd_relayer::relayer::WaitAction;
use xswd_relayer::relayer::WaitEvent;
use xswd_relayer::session::RelayerSession;
use xswd_relayer::session::RelayerSessionShared;

fn session() -> RelayerSessionShared {
    let (request, mut payload) = actix_web::test::TestRequest::get()
        .insert_header(("upgrade", "websocket"))
        .insert_header(("connection", "upgrade"))
        .insert_header(("sec-websocket-version", "13"))
        .insert_header(("sec-websocket-key", "dGhlIHNhbXBsZSBub25jZQ=="))
        .to_http_parts();
    let body = actix_web::web::Payload::from_request(&request, &mut payload)
        .into_inner()
        .unwrap();
    let (_response, session, _stream) = actix_ws::handle(&request, body).unwrap();
    RelayerSession::new(session, Duration::from_secs(1))
}

fn config() -> RelayerConfig {
    RelayerConfig {
        max_frame_size: 8,
        keep_alive_interval: Duration::from_secs(30),
        session_message_timeout: Duration::from_millis(700),
        channel_creation_timeout: Duration::from_secs(45),
        bind_address: "127.0.0.1:0".to_owned(),
    }
}

fn abandoned(verdict: &WaitAction, error: RelayerError, farewell: Farewell) -> bool {
    match verdict {
        WaitAction::Abandon { error: found, farewell: parting } => {
            *found == error && *parting == farewell
        }
        _ => false,
    }
}

#[test]
fn a_new_relayer_has_no_channel() {
    let relayer = Relayer::new(config());
    assert!(!relayer.has_channel(&0));
    assert!(!relayer.has_channel(&7));
    assert!(!relayer.has_channel(&u128::MAX));
}

#[test]
fn a_relayer_keeps_its_configuration() {
    let relayer = Relayer::new(config());
    assert_eq!(relayer.config().max_frame_size, 8);
    assert_eq!(relayer.config().keep_alive_interval, Duration::from_secs(30));
    assert_eq!(relayer.config().channel_creation_timeout, Duration::from_secs(45));
    assert_eq!(relayer.config().bind_address, "127.0.0.1:0");
    assert_eq!(relayer.session_message_timeout(), Duration::from_millis(700));
}

#[test]
fn a_created_channel_is_registered_under_a_random_identifier() {
    let mut relayer = Relayer::new(config());

    let rendezvous = relayer.create_new_channel(session()).unwrap();

    assert!(relayer.has_channel(&rendezvous.id));
    assert_eq!(rendezvous.id & STAMP_MASK, RANDOM_STAMP);
    assert_eq!(rendezvous.timeout, Duration::from_secs(45));
    assert!(!relayer.has_channel(&(rendezvous.id ^ 1)));
}

#[test]
fn two_created_channels_are_apart() {
    let mut relayer = Relayer::new(config());

    let first = relayer.create_new_channel(session()).unwrap();
    let second = relayer.create_new_channel(session()).unwrap();

    assert_ne!(first.id, second.id);
    assert!(relayer.has_channel(&first.id));
    assert!(relayer.has_channel(&second.id));
}

#[test]
fn an_entry_is_never_overwritten() {
    let mut relayer = Relayer::new(config());
    let first = session();
    let second = session();

    let opened = relayer.register(9, first.clone());
    let refused = relayer.register(9, second);

    assert!(opened.is_ok());
    assert!(matches!(refused, Err(RelayerError::ChannelUnavailable)));
    assert!(relayer.has_channel(&9));
    let host = relayer.join_channel(9, &session()).unwrap();
    assert!(Arc::ptr_eq(&host, &first));
}

#[test]
fn register_opens_the_channel_under_the_given_identifier() {
    let mut relayer = Relayer::new(config());

    let rendezvous = relayer.register(77, session()).unwrap();

    assert_eq!(rendezvous.id, 77);
    assert_eq!(rendezvous.timeout, Duration::from_secs(45));
    assert!(relayer.has_channel(&77));
    assert!(!relayer.has_channel(&78));
}

#[test]
fn joining_an_unknown_identifier_finds_no_channel() {
    let mut relayer = Relayer::new(config());
    let _ = relayer.register(1, session()).unwrap();

    let joined = relayer.join_channel(2, &session());

    assert!(matches!(joined, Err(RelayerError::ChannelNotFound)));
    assert!(relayer.has_channel(&1));
}

#[test]
fn joining_pairs_the_client_with_the_host() {
    let mut relayer = Relayer::new(config());
    let host = session();
    let client = session();
    let mut rendezvous = relayer.create_new_channel(host.clone()).unwrap();

    let joined = relayer.join_channel(rendezvous.id, &client).unwrap();

    assert!(Arc::ptr_eq(&joined, &host));
    assert!(Arc::ptr_eq(&rendezvous.arrival.try_recv().unwrap(), &client));
    assert!(!relayer.has_channel(&rendezvous.id));
}

#[test]
fn a_channel_whose_pairing_came_about_is_gone() {
    let mut relayer = Relayer::new(config());
    let rendezvous = relayer.create_new_channel(session()).unwrap();

    let first = relayer.join_channel(rendezvous.id, &session());
    let second = relayer.join_channel(rendezvous.id, &session());

    assert!(first.is_ok());
    assert!(matches!(second, Err(RelayerError::ChannelNotFound)));
}

#[test]
fn joining_a_host_that_stopped_listening_uses_the_channel_up() {
    let mut relayer = Relayer::new(config());
    let rendezvous = relayer.create_new_channel(session()).unwrap();
    let id = rendezvous.id;
    drop(rendezvous);

    let joined = relayer.join_channel(id, &session());

    assert!(matches!(joined, Err(RelayerError::NotifyHost)));
    assert!(relayer.has_channel(&id));
}

#[test]
fn a_channel_that_was_joined_before_is_unavailable() {
    let mut relayer = Relayer::new(config());
    let rendezvous = relayer.create_new_channel(session()).unwrap();
    let id = rendezvous.id;
    drop(rendezvous);
    let _ = relayer.join_channel(id, &session());

    let second = relayer.join_channel(id, &session());
    let third = relayer.join_channel(id, &session());

    assert!(matches!(second, Err(RelayerError::ChannelUnavailable)));
    assert!(matches!(third, Err(RelayerError::ChannelUnavailable)));
    assert!(relayer.has_channel(&id));
}

#[test]
fn a_timer_spares_a_channel_that_was_joined() {
    let mut relayer = Relayer::new(config());
    let rendezvous = relayer.create_new_channel(session()).unwrap();
    let id = rendezvous.id;
    drop(rendezvous);
    let _ = relayer.join_channel(id, &session());

    let verdict = relayer.waiting(id, WaitEvent::Expired);

    assert!(matches!(verdict, WaitAction::Continue));
    assert!(relayer.has_channel(&id));
}

#[test]
fn a_host_that_goes_away_takes_a_joined_channel_with_it() {
    let mut relayer = Relayer::new(config());
    let rendezvous = relayer.create_new_channel(session()).unwrap();
    let id = rendezvous.id;
    drop(rendezvous);
    let _ = relayer.join_channel(id, &session());

    let verdict = relayer.waiting(id, WaitEvent::Received(Inbound::Ended));

    assert!(abandoned(&verdict, RelayerError::SessionClosed, Farewell::Silent));
    assert!(!relayer.has_channel(&id));
}

#[test]
fn a_failed_send_to_a_waiting_host_gives_the_channel_up() {
    let mut relayer = Relayer::new(config());
    let _rendezvous = relayer.register(3, session()).unwrap();

    let verdict = relayer.waiting(3, WaitEvent::SendFailed(RelayerError::DeadlineElapsed));

    assert!(abandoned(&verdict, RelayerError::DeadlineElapsed, Farewell::Silent));
    assert!(!relayer.has_channel(&3));
}

#[test]
fn joining_leaves_other_channels_alone() {
    let mut relayer = Relayer::new(config());
    let _one = relayer.register(1, session()).unwrap();
    let _two = relayer.register(2, session()).unwrap();

    let _ = relayer.join_channel(1, &session()).unwrap();

    assert!(!relayer.has_channel(&1));
    assert!(relayer.has_channel(&2));
}

#[test]
fn an_expired_channel_is_removed_and_the_host_told_why() {
    let mut relayer = Relayer::new(config());
    let rendezvous = relayer.create_new_channel(session()).unwrap();

    let verdict = relayer.waiting(rendezvous.id, WaitEvent::Expired);

    assert!(abandoned(&verdict, RelayerError::ChannelNotFound, Farewell::NoPeer));
    assert!(!relayer.has_channel(&rendezvous.id));
}

#[test]
fn a_late_join_to_an_expired_channel_finds_nothing() {
    let mut relayer = Relayer::new(config());
    let rendezvous = relayer.create_new_channel(session()).unwrap();
    let _ = relayer.waiting(rendezvous.id, WaitEvent::Expired);

    let joined = relayer.join_channel(rendezvous.id, &session());

    assert!(matches!(joined, Err(RelayerError::ChannelNotFound)));
}

#[test]
fn a_timer_that_fires_after_a_join_changes_nothing() {
    let mut relayer = Relayer::new(config());
    let client = session();
    let mut rendezvous = relayer.create_new_channel(session()).unwrap();
    let _other = relayer.register(5, session()).unwrap();
    let _ = relayer.join_channel(rendezvous.id, &client).unwrap();

    let verdict = relayer.waiting(rendezvous.id, WaitEvent::Expired);

    assert!(matches!(verdict, WaitAction::Continue));
    assert!(relayer.has_channel(&5));
    let arrived = rendezvous.arrival.try_recv().unwrap();
    let verdict = relayer.waiting(rendezvous.id, WaitEvent::Arrived(arrived));
    assert!(matches!(verdict, WaitAction::Relay(ref paired) if Arc::ptr_eq(paired, &client)));
}

#[test]
fn an_arrival_starts_the_relay_and_leaves_the_registry_alone() {
    let mut relayer = Relayer::new(config());
    let client = session();
    let _other = relayer.register(5, session()).unwrap();

    let verdict = relayer.waiting(6, WaitEvent::Arrived(client.clone()));

    assert!(matches!(verdict, WaitAction::Relay(ref paired) if Arc::ptr_eq(paired, &client)));
    assert!(relayer.has_channel(&5));
    assert!(!relayer.has_channel(&6));
}

#[test]
fn a_lost_notifier_gives_the_channel_up() {
    let mut relayer = Relayer::new(config());
    let _rendezvous = relayer.register(3, session()).unwrap();

    let verdict = relayer.waiting(3, WaitEvent::NotifierClosed);

    assert!(abandoned(&verdict, RelayerError::ChannelNotFound, Farewell::NoPeer));
    assert!(!relayer.has_channel(&3));
}

#[test]
fn a_waiting_host_gets_its_pings_answered() {
    let mut relayer = Relayer::new(config());
    let _rendezvous = relayer.register(3, session()).unwrap();

    let verdict = relayer.waiting(3, WaitEvent::Received(Inbound::Ping(vec![1, 2])));

    assert!(matches!(verdict, WaitAction::Reply(Frame::Pong)));
    assert!(relayer.has_channel(&3));
}

#[test]
fn a_pong_from_a_waiting_host_is_ignored() {
    let mut relayer = Relayer::new(config());
    let _rendezvous = relayer.register(3, session()).unwrap();

    let verdict = relayer.waiting(3, WaitEvent::Received(Inbound::Pong(vec![])));

    assert!(matches!(verdict, WaitAction::Continue));
    assert!(relayer.has_channel(&3));
}

#[test]
fn text_from_a_waiting_host_is_unexpected() {
    let mut relayer = Relayer::new(config());
    let _rendezvous = relayer.register(3, session()).unwrap();

    let verdict = relayer.waiting(3, WaitEvent::Received(Inbound::Text("early".to_owned())));

    assert!(abandoned(
        &verdict,
        RelayerError::UnexpectedMessage,
        Farewell::Refused(RelayerError::UnexpectedMessage)
    ));
    assert!(!relayer.has_channel(&3));
}

#[test]
fn binary_from_a_waiting_host_is_unexpected() {
    let mut relayer = Relayer::new(config());
    let _rendezvous = relayer.register(3, session()).unwrap();

    let verdict = relayer.waiting(3, WaitEvent::Received(Inbound::Binary(vec![1])));

    assert!(abandoned(
        &verdict,
        RelayerError::UnexpectedMessage,
        Farewell::Refused(RelayerError::UnexpectedMessage)
    ));
    assert!(!relayer.has_channel(&3));
}

#[test]
fn a_host_that_closes_while_waiting_loses_its_channel() {
    let mut relayer = Relayer::new(config());
    let _rendezvous = relayer.register(3, session()).unwrap();
    let reason = CloseReason { code: 1001, description: Some("leaving".to_owned()) };

    let verdict = relayer.waiting(3, WaitEvent::Received(Inbound::Close(Some(reason.clone()))));

    assert!(abandoned(&verdict, RelayerError::SessionClosed, Farewell::Echo(reason)));
    assert!(!relayer.has_channel(&3));
    assert!(matches!(
        relayer.join_channel(3, &session()),
        Err(RelayerError::ChannelNotFound)
    ));
}

#[test]
fn a_host_that_closes_without_reason_is_answered_silently() {
    let mut relayer = Relayer::new(config());
    let _rendezvous = relayer.register(3, session()).unwrap();

    let verdict = relayer.waiting(3, WaitEvent::Received(Inbound::Close(None)));

    assert!(abandoned(&verdict, RelayerError::SessionClosed, Farewell::Silent));
    assert!(!relayer.has_channel(&3));
}

#[test]
fn a_host_whose_stream_breaks_loses_its_channel() {
    let mut relayer = Relayer::new(config());
    let _rendezvous = relayer.register(3, session()).unwrap();

    let verdict = relayer.waiting(3, WaitEvent::Received(Inbound::Failed));

    assert!(abandoned(&verdict, RelayerError::SessionClosed, Farewell::Silent));
    assert!(!relayer.has_channel(&3));
    assert!(matches!(
        relayer.join_channel(3, &session()),
        Err(RelayerError::ChannelNotFound)
    ));
}

#[test]
fn a_host_whose_stream_ends_loses_its_channel() {
    let mut relayer = Relayer::new(config());
    let _rendezvous = relayer.register(3, session()).unwrap();

    let verdict = relayer.waiting(3, WaitEvent::Received(Inbound::Ended));

    assert!(abandoned(&verdict, RelayerError::SessionClosed, Farewell::Silent));
    assert!(!relayer.has_channel(&3));
    assert!(matches!(
        relayer.join_channel(3, &session()),
        Err(RelayerError::ChannelNotFound)
    ));
}

#[test]
fn a_wait_that_ends_leaves_other_channels_alone() {
    let mut relayer = Relayer::new(config());
    let _one = relayer.register(1, session()).unwrap();
    let _two = relayer.register(2, session()).unwrap();

    let _ = relayer.waiting(1, WaitEvent::Received(Inbound::Ended));

    assert!(!relayer.has_channel(&1));
    assert!(relayer.has_channel(&2));
}

#[test]
fn a_relay_takes_its_limit_from_the_configuration() {
    let relayer = Relayer::new(config());
    let mut relay = relayer.relay();

    assert!(relay.is_open());
    assert_eq!(
        relay.step(RelayEvent::Received(Inbound::Text("12345678".to_owned()))),
        RelayAction::Forward(Frame::Text("12345678".to_owned()))
    );
    assert_eq!(
        relay.step(RelayEvent::Received(Inbound::Text("123456789".to_owned()))),
        RelayAction::Teardown { farewell: Farewell::Oversized, notify_peer: true }
    );
}

#[test]
fn a_client_that_cannot_join_is_turned_away_with_the_error() {
    assert_eq!(
        turned_away(RelayerError::NotifyHost),
        Farewell::Refused(RelayerError::NotifyHost)
    );
    assert_eq!(
        turned_away(RelayerError::ChannelUnavailable).reason(),
        Some(CloseReason { code: 1008, description: Some("channel unavailable".to_owned()) })
    );
}
