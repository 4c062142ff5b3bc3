use spotify_bridge::bootstrap::{
    bootstrap_from_slots, bootstrap_result, bootstrap_step, BootstrapEvent, BootstrapState,
    CacheConfig, Credentials, RuntimeHandle, Session,
};
use spotify_bridge::errors::{SpotifyError, TokenFailure};
use spotify_bridge::events::{Event, PlayerStateChange};
use spotify_bridge::oneshot::{OneShot, OneShotError};
use spotify_bridge::player::{Bitrate, SpotifyPlayer};
use spotify_bridge::token::{observe_token_slot, resolve_token, TokenExchangeOutcome, TokenWait};
use spotify_bridge::track::TrackId;

fn granted() -> TokenWait {
    TokenWait::Resolved(TokenExchangeOutcome::Granted {
        access_token: String::from("tok-abc"),
        scope: vec![String::from("user-read-private"), String::from("user-read-email")],
        expires_in: 3600,
    })
}

#[test]
fn token_resolution_is_deterministic() {
    let a = resolve_token(granted()).unwrap();
    let b = resolve_token(granted()).unwrap();
    assert_eq!(a, b);
    assert_eq!(a.token.as_str(), "tok-abc");
    assert_eq!(a.scope.len(), 2);
    assert_eq!(a.scope[0].as_str(), "user-read-private");
    assert_eq!(a.scope[1].as_str(), "user-read-email");
    assert_eq!(a.expires_in, 3600);
}

#[test]
fn token_failures_keep_their_reason() {
    assert_eq!(
        resolve_token(TokenWait::Resolved(TokenExchangeOutcome::NetworkError)),
        Err(SpotifyError::TokenExchangeFailure(TokenFailure::Network))
    );
    assert_eq!(
        resolve_token(TokenWait::Resolved(TokenExchangeOutcome::ScopeRejected)),
        Err(SpotifyError::TokenExchangeFailure(TokenFailure::ScopeRejected))
    );
    assert_eq!(
        resolve_token(TokenWait::Resolved(TokenExchangeOutcome::SessionExpired)),
        Err(SpotifyError::TokenExchangeFailure(TokenFailure::SessionExpired))
    );
    assert_eq!(
        resolve_token(TokenWait::TimedOut),
        Err(SpotifyError::TokenExchangeFailure(TokenFailure::TimedOut))
    );
    assert_eq!(resolve_token(TokenWait::SenderGone), Err(SpotifyError::LockContention));
}

#[test]
fn one_shot_delivers_exactly_once() {
    let mut slot: OneShot<u32> = OneShot::new();
    assert_eq!(slot.recv(), Err(OneShotError::Pending));
    assert_eq!(slot.send(11), Ok(()));
    // The second write is rejected and hands the value back.
    assert_eq!(slot.send(22), Err(22));
    assert_eq!(slot.recv(), Ok(11));
    assert_eq!(slot.recv(), Err(OneShotError::AlreadyConsumed));
}

#[test]
fn one_shot_reports_a_lost_writer() {
    let mut slot: OneShot<u32> = OneShot::new();
    slot.close();
    assert_eq!(slot.recv(), Err(OneShotError::SenderGone));
    // A written value survives the writer going away.
    let mut full: OneShot<u32> = OneShot::new();
    assert_eq!(full.send(5), Ok(()));
    full.close();
    assert_eq!(full.recv(), Ok(5));
}

#[test]
fn bootstrap_happy_path_yields_both_values() {
    let h = RuntimeHandle { id: 3 };
    let s = Session { id: 8 };
    let st = bootstrap_step(
        BootstrapState::AwaitingHandle,
        BootstrapEvent::HandlePublished { handle: h },
    );
    assert_eq!(st, BootstrapState::AwaitingSession { handle: h });
    let st = bootstrap_step(st, BootstrapEvent::SessionPublished { session: s });
    assert_eq!(st, BootstrapState::Ready { handle: h, session: s });
    assert_eq!(bootstrap_result(st), Ok((h, s)));
}

#[test]
fn bootstrap_failures_surface_instead_of_hanging() {
    let failed = bootstrap_step(BootstrapState::AwaitingHandle, BootstrapEvent::WorkerTerminated);
    assert_eq!(failed, BootstrapState::Failed);
    assert_eq!(bootstrap_result(failed), Err(SpotifyError::BootstrapFailure));
    let handshake = bootstrap_step(
        BootstrapState::AwaitingSession { handle: RuntimeHandle { id: 3 } },
        BootstrapEvent::HandshakeFailed,
    );
    assert_eq!(bootstrap_result(handshake), Err(SpotifyError::BootstrapFailure));
    // The session may not arrive before the handle.
    let out_of_order = bootstrap_step(
        BootstrapState::AwaitingHandle,
        BootstrapEvent::SessionPublished { session: Session { id: 8 } },
    );
    assert_eq!(out_of_order, BootstrapState::Failed);
    // Failure is terminal.
    let still = bootstrap_step(
        BootstrapState::Failed,
        BootstrapEvent::HandlePublished { handle: RuntimeHandle { id: 3 } },
    );
    assert_eq!(still, BootstrapState::Failed);
}

#[test]
fn double_wait_reads_handle_then_session() {
    let mut handle_slot: OneShot<RuntimeHandle> = OneShot::new();
    let mut session_slot: OneShot<Session> = OneShot::new();
    assert_eq!(handle_slot.send(RuntimeHandle { id: 4 }), Ok(()));
    assert_eq!(session_slot.send(Session { id: 9 }), Ok(()));
    let r = bootstrap_from_slots(&mut handle_slot, &mut session_slot);
    assert_eq!(r, Ok((RuntimeHandle { id: 4 }, Session { id: 9 })));
    // Each slot delivered its value exactly once.
    assert_eq!(handle_slot.recv(), Err(OneShotError::AlreadyConsumed));
    assert_eq!(session_slot.recv(), Err(OneShotError::AlreadyConsumed));
}

#[test]
fn double_wait_fails_when_a_slot_never_fills() {
    let mut handle_slot: OneShot<RuntimeHandle> = OneShot::new();
    let mut session_slot: OneShot<Session> = OneShot::new();
    assert_eq!(handle_slot.send(RuntimeHandle { id: 4 }), Ok(()));
    session_slot.close();
    let r = bootstrap_from_slots(&mut handle_slot, &mut session_slot);
    assert_eq!(r, Err(SpotifyError::BootstrapFailure));
}

#[test]
fn token_slot_observation_tells_the_cases_apart() {
    let mut full: OneShot<TokenExchangeOutcome> = OneShot::new();
    assert_eq!(full.send(TokenExchangeOutcome::NetworkError), Ok(()));
    assert_eq!(
        observe_token_slot(&mut full),
        TokenWait::Resolved(TokenExchangeOutcome::NetworkError)
    );
    let mut empty: OneShot<TokenExchangeOutcome> = OneShot::new();
    assert_eq!(observe_token_slot(&mut empty), TokenWait::TimedOut);
    let mut closed: OneShot<TokenExchangeOutcome> = OneShot::new();
    closed.close();
    assert_eq!(observe_token_slot(&mut closed), TokenWait::SenderGone);
}

#[test]
fn credentials_and_cache_forward_their_fields() {
    let c = Credentials::with_password(String::from("alice"), String::from("pw"));
    assert_eq!(c.username.as_str(), "alice");
    let cache = CacheConfig::new(String::from("/var/cache/bridge"));
    assert_eq!(cache.dir.as_str(), "/var/cache/bridge");
}

#[test]
fn facade_poll_describes_the_head_event() {
    let mut p = SpotifyPlayer::new(
        RuntimeHandle { id: 1 },
        Session { id: 2 },
        Bitrate::Normal,
        8,
        100,
    );
    let track = TrackId::from_base62("6rqhFgbbKwnb9MLmUQDhG6").unwrap();
    p.publish_state_change(PlayerStateChange::Started { track, position_ms: 0 });
    p.write_audio(vec![1, 2, 3]);
    let first = p.poll_described().unwrap().unwrap();
    assert_eq!(first.name.as_str(), "started");
    assert_eq!(first.track_id.unwrap().as_str(), "6rqhFgbbKwnb9MLmUQDhG6");
    assert_eq!(first.position_ms, Some(0));
    let second = p.poll_described().unwrap().unwrap();
    assert_eq!(second.name.as_str(), "audio-data");
    assert_eq!(second.data, Some(vec![1, 2, 3]));
    assert_eq!(p.poll_described(), Ok(None));
}

#[test]
fn facade_surfaces_engine_teardown_forever() {
    let mut p = SpotifyPlayer::new(
        RuntimeHandle { id: 1 },
        Session { id: 2 },
        Bitrate::Low,
        8,
        100,
    );
    p.engine_gone();
    assert_eq!(p.poll(), Err(SpotifyError::ChannelDisconnected));
    assert_eq!(p.poll(), Err(SpotifyError::ChannelDisconnected));
    assert!(matches!(p.poll_described(), Err(SpotifyError::ChannelDisconnected)));
}

#[test]
fn error_messages_name_the_failure() {
    assert_eq!(
        SpotifyError::InvalidIdentifier.message().as_str(),
        "invalid track identifier"
    );
    assert_eq!(
        SpotifyError::TokenExchangeFailure(TokenFailure::ScopeRejected).message().as_str(),
        "token exchange failed: scope rejected"
    );
    assert_eq!(
        SpotifyError::ChannelDisconnected.message().as_str(),
        "event channel disconnected"
    );
}

#[test]
fn polled_events_match_what_was_produced() {
    let mut p = SpotifyPlayer::new(
        RuntimeHandle { id: 1 },
        Session { id: 2 },
        Bitrate::Normal,
        8,
        100,
    );
    let mk = || PlayerStateChange::VolumeSet { volume: 12 };
    p.publish_state_change(mk());
    p.publish_state_change(PlayerStateChange::Stopped {
        track: TrackId::from_base62("0000000000000000000001").unwrap(),
    });
    assert_eq!(
        p.poll(),
        Ok(Some(Event::PlayerStateChange { e: mk() }))
    );
    assert_eq!(
        p.poll(),
        Ok(Some(Event::PlayerStateChange {
            e: PlayerStateChange::Stopped {
                track: TrackId::from_base62("0000000000000000000001").unwrap(),
            }
        }))
    );
    assert_eq!(p.poll(), Ok(None));
}
