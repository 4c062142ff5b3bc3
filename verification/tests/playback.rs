use spotify_bridge::bootstrap::{RuntimeHandle, Session};
use spotify_bridge::errors::SpotifyError;
use spotify_bridge::player::{
    Bitrate, Command, DeviceType, ImpliedMixer, SpotifyPlayer, VolumeCtrl, IMPLIED_MIXER_VOLUME,
};
use spotify_bridge::track::TrackId;

fn facade() -> SpotifyPlayer {
    SpotifyPlayer::new(
        RuntimeHandle { id: 1 },
        Session { id: 7 },
        Bitrate::High,
        16,
        100,
    )
}

#[test]
fn play_valid_base62_id_succeeds_synchronously() {
    let mut p = facade();
    let r = p.play("6rqhFgbbKwnb9MLmUQDhG6");
    match r {
        Ok(Command::Load { track, autostart, position_ms }) => {
            assert!(autostart);
            assert_eq!(position_ms, 0);
            assert_eq!(track.to_base62().as_str(), "6rqhFgbbKwnb9MLmUQDhG6");
        }
        other => panic!("expected a load command, got {:?}", other),
    }
}

#[test]
fn play_malformed_id_fails_recoverably() {
    let mut p = facade();
    let r = p.play("not-a-valid-id!!");
    assert_eq!(r, Err(SpotifyError::InvalidIdentifier));
    // The facade is still usable afterwards.
    let again = p.play("6rqhFgbbKwnb9MLmUQDhG6");
    assert!(matches!(again, Ok(Command::Load { .. })));
    assert!(matches!(p.stop(), Command::Stop));
}

#[test]
fn play_rejects_wrong_length() {
    let mut p = facade();
    assert_eq!(p.play(""), Err(SpotifyError::InvalidIdentifier));
    assert_eq!(p.play("6rqhFgbbKwnb9MLmUQDhG"), Err(SpotifyError::InvalidIdentifier));
    assert_eq!(p.play("6rqhFgbbKwnb9MLmUQDhG66"), Err(SpotifyError::InvalidIdentifier));
}

#[test]
fn play_rejects_value_beyond_128_bits() {
    let mut p = facade();
    // 22 top digits denote a number past the 128-bit range.
    assert_eq!(p.play("ZZZZZZZZZZZZZZZZZZZZZZ"), Err(SpotifyError::InvalidIdentifier));
}

#[test]
fn base62_digits_have_exact_values() {
    let zero = TrackId::from_base62("0000000000000000000000").unwrap();
    assert_eq!(zero.value(), 0);
    let one = TrackId::from_base62("0000000000000000000001").unwrap();
    assert_eq!(one.value(), 1);
    let z = TrackId::from_base62("000000000000000000000z").unwrap();
    assert_eq!(z.value(), 35);
    let big_a = TrackId::from_base62("000000000000000000000A").unwrap();
    assert_eq!(big_a.value(), 36);
    let two_digits = TrackId::from_base62("00000000000000000000A0").unwrap();
    assert_eq!(two_digits.value(), 36 * 62);
}

#[test]
fn base62_text_round_trips() {
    let t = TrackId::from_base62("6rqhFgbbKwnb9MLmUQDhG6").unwrap();
    assert_eq!(t.to_base62().as_str(), "6rqhFgbbKwnb9MLmUQDhG6");
}

#[test]
fn track_identifiers_are_canonical() {
    let a = TrackId::from_base62("6rqhFgbbKwnb9MLmUQDhG6").unwrap();
    let b = TrackId::from_base62("6rqhFgbbKwnb9MLmUQDhG6").unwrap();
    assert_eq!(a, b);
    let c = TrackId::from_base62("6rqhFgbbKwnb9MLmUQDhG7").unwrap();
    assert_ne!(a.value(), c.value());
}

#[test]
fn second_enable_connect_is_rejected() {
    let mut p = facade();
    let first = p.enable_connect(
        String::from("kitchen"),
        DeviceType { tag: String::from("speaker") },
        40,
        VolumeCtrl::Linear,
    );
    let req = first.unwrap();
    assert_eq!(req.config.name.as_str(), "kitchen");
    assert_eq!(req.config.volume, 40);
    assert!(req.config.autoplay);
    assert_eq!(req.config.volume_ctrl, VolumeCtrl::Linear);
    assert_eq!(req.session, Session { id: 7 });
    let second = p.enable_connect(
        String::from("kitchen"),
        DeviceType { tag: String::from("speaker") },
        40,
        VolumeCtrl::Linear,
    );
    assert!(matches!(second, Err(SpotifyError::ConnectTaskConflict)));
    assert!(p.connect_active);
}

#[test]
fn disable_connect_allows_a_new_task() {
    let mut p = facade();
    let _ = p
        .enable_connect(
            String::from("desk"),
            DeviceType { tag: String::from("computer") },
            10,
            VolumeCtrl::Log,
        )
        .unwrap();
    assert!(p.disable_connect());
    assert!(!p.disable_connect());
    let again = p.enable_connect(
        String::from("desk"),
        DeviceType { tag: String::from("computer") },
        10,
        VolumeCtrl::Log,
    );
    assert!(again.is_ok());
}

#[test]
fn direct_commands_forward_exactly() {
    let p = facade();
    assert_eq!(p.stop(), Command::Stop);
    assert_eq!(p.pause(), Command::Pause);
    assert_eq!(p.seek(90_000), Command::Seek { position_ms: 90_000 });
}

#[test]
fn new_facade_uses_the_default_config() {
    let p = facade();
    assert_eq!(p.config.bitrate, Bitrate::High);
    assert!(!p.config.normalisation);
    assert_eq!(p.config.normalisation_pregain_millidb, 0);
    assert!(p.config.gapless);
    assert!(!p.connect_active);
    assert_eq!(p.channel.wait_bound_ms(), 100);
    assert_eq!(p.channel.capacity(), 16);
}

#[test]
fn quality_and_volume_tags_parse_exactly() {
    assert_eq!(Bitrate::of_tag("low"), Some(Bitrate::Low));
    assert_eq!(Bitrate::of_tag("normal"), Some(Bitrate::Normal));
    assert_eq!(Bitrate::of_tag("high"), Some(Bitrate::High));
    assert_eq!(Bitrate::of_tag("ultra"), None);
    assert_eq!(Bitrate::of_tag(""), None);
    assert_eq!(VolumeCtrl::of_tag("linear"), Some(VolumeCtrl::Linear));
    assert_eq!(VolumeCtrl::of_tag("log"), Some(VolumeCtrl::Log));
    assert_eq!(VolumeCtrl::of_tag("fixed"), Some(VolumeCtrl::Fixed));
    assert_eq!(VolumeCtrl::of_tag("cubic"), None);
}

#[test]
fn implied_mixer_accepts_volume_without_mixing() {
    let mut mixer = ImpliedMixer::open();
    assert_eq!(mixer.volume(), 50);
    assert_eq!(mixer.volume(), IMPLIED_MIXER_VOLUME);
    mixer.set_volume(12_000);
    // Writes are accepted but drive no hardware: the read is unchanged.
    assert_eq!(mixer.volume(), 50);
}

#[test]
fn get_token_forwards_the_request() {
    let p = facade();
    let req = p.get_token(
        String::from("client-1"),
        String::from("user-read-private user-read-email"),
    );
    assert_eq!(req.client_id.as_str(), "client-1");
    assert_eq!(req.scopes.as_str(), "user-read-private user-read-email");
}
