//! The player facade.
//!
//! Owns the session and runtime handles, the player configuration, the
//! event channel, and the connect-mode state. Command methods validate
//! their input and yield the exact engine command to dispatch; they are
//! fire-and-forget, so their effect reaches the caller only through later
//! polled events. Connect mode follows a reject policy: a second
//! activation while one task is active fails with `ConnectTaskConflict`
//! and changes nothing, so at most one connect task is ever active.

use vstd::prelude::*;

verus! {

use crate::bootstrap::RuntimeHandle;
use crate::bootstrap::Session;
use crate::channel::EventChannel;
use crate::channel::poll_outcome;
use crate::channel::poll_rest;
use crate::channel::produce_spec;
use crate::errors::SpotifyError;
use crate::events::Event;
use crate::events::EventDescription;
use crate::events::PlayerStateChange;
use crate::events::audio_field;
use crate::events::duration_field;
use crate::events::name_of;
use crate::events::new_track_field;
use crate::events::old_track_field;
use crate::events::position_field;
use crate::events::track_field;
use crate::events::volume_field;
use crate::token::TokenRequest;
use crate::track::TrackId;
use crate::track::valid_track_text;

/// Audio quality tags, as the engine owns them.
#[derive(Clone, Copy, PartialEq, Eq, Structural, Debug)]
pub enum Bitrate {
    Low,
    Normal,
    High,
}

impl Bitrate {
    /// The tag set of the quality enum: `low`, `normal`, `high`. Any other
    /// tag belongs to no quality.
    pub open spec fn of_tag_spec(s: Seq<char>) -> Option<Bitrate> {
        if s == "low"@ {
            Some(Bitrate::Low)
        } else if s == "normal"@ {
            Some(Bitrate::Normal)
        } else if s == "high"@ {
            Some(Bitrate::High)
        } else {
            None
        }
    }

    /// Parse a quality tag.
    pub fn of_tag(s: &str) -> (r: Option<Bitrate>)
        ensures
            r == Bitrate::of_tag_spec(s@),
    {
        if str_eq(s, "low") {
            Some(Bitrate::Low)
        } else if str_eq(s, "normal") {
            Some(Bitrate::Normal)
        } else if str_eq(s, "high") {
            Some(Bitrate::High)
        } else {
            None
        }
    }
}

/// Volume-control policies, as the engine owns them.
#[derive(Clone, Copy, PartialEq, Eq, Structural, Debug)]
pub enum VolumeCtrl {
    Linear,
    Log,
    Fixed,
}

impl VolumeCtrl {
    /// The tag set of the policy enum: `linear`, `log`, `fixed`.
    pub open spec fn of_tag_spec(s: Seq<char>) -> Option<VolumeCtrl> {
        if s == "linear"@ {
            Some(VolumeCtrl::Linear)
        } else if s == "log"@ {
            Some(VolumeCtrl::Log)
        } else if s == "fixed"@ {
            Some(VolumeCtrl::Fixed)
        } else {
            None
        }
    }

    /// Parse a volume-control tag.
    pub fn of_tag(s: &str) -> (r: Option<VolumeCtrl>)
        ensures
            r == VolumeCtrl::of_tag_spec(s@),
    {
        if str_eq(s, "linear") {
            Some(VolumeCtrl::Linear)
        } else if str_eq(s, "log") {
            Some(VolumeCtrl::Log)
        } else if str_eq(s, "fixed") {
            Some(VolumeCtrl::Fixed)
        } else {
            None
        }
    }
}

/// The device kind announced to the remote-control protocol. The tag set is
/// owned by the engine; the tag is forwarded, never interpreted here.
#[derive(Debug, PartialEq, Eq)]
pub struct DeviceType {
    pub tag: String,
}

/// The player configuration: immutable after construction, copied whenever
/// a second player is created. The normalization pregain is kept in
/// millidecibels.
#[derive(Clone, Copy, PartialEq, Eq, Structural, Debug)]
pub struct PlayerConfig {
    pub bitrate: Bitrate,
    pub normalisation: bool,
    pub normalisation_pregain_millidb: i32,
    pub gapless: bool,
}

/// The configuration a player is constructed with: the chosen quality, no
/// normalization, zero pregain, gapless playback.
pub open spec fn default_player_config(quality: Bitrate) -> PlayerConfig {
    PlayerConfig {
        bitrate: quality,
        normalisation: false,
        normalisation_pregain_millidb: 0,
        gapless: true,
    }
}

/// One direct, thread-safe call into the engine's player handle.
#[derive(Debug, PartialEq, Eq)]
pub enum Command {
    Load { track: TrackId, autostart: bool, position_ms: u32 },
    Stop,
    Pause,
    Seek { position_ms: u32 },
}

/// The parameters of the connect-protocol task.
#[derive(Debug, PartialEq, Eq)]
pub struct ConnectConfig {
    pub name: String,
    pub device_type: DeviceType,
    pub volume: u16,
    pub autoplay: bool,
    pub volume_ctrl: VolumeCtrl,
}

/// Everything the host needs to spawn one connect task: its configuration,
/// plus the shared session and the configuration for the second player it
/// drives.
#[derive(Debug, PartialEq, Eq)]
pub struct ConnectRequest {
    pub config: ConnectConfig,
    pub player_config: PlayerConfig,
    pub session: Session,
}

/// The minimal mixer that satisfies the connect task's required capability:
/// it accepts volume reads and writes but performs no hardware mixing, so a
/// write changes nothing and a read always answers the fixed midpoint.
#[derive(Clone, Copy, PartialEq, Eq, Structural, Debug)]
pub struct ImpliedMixer {}

/// The volume every read of the implied mixer reports.
pub const IMPLIED_MIXER_VOLUME: u16 = 50;

impl ImpliedMixer {
    pub fn open() -> (r: ImpliedMixer)
        ensures
            r == (ImpliedMixer {  }),
    {
        ImpliedMixer {  }
    }

    /// Always the fixed midpoint: no hardware is consulted.
    pub fn volume(&self) -> (r: u16)
        ensures
            r == IMPLIED_MIXER_VOLUME,
    {
        50
    }

    /// Accepted and discarded: no hardware is driven.
    pub fn set_volume(&mut self, _volume: u16)
        ensures
            *final(self) == *old(self),
    {
    }
}

/// The facade the caller holds.
pub struct SpotifyPlayer {
    /// The background runtime's scheduling handle, shared with every spawn.
    pub handle: RuntimeHandle,
    /// The authenticated session, shared by both players and the connect task.
    pub session: Session,
    /// Immutable configuration of every player this facade creates.
    pub config: PlayerConfig,
    /// The event channel between engine callbacks and `poll`.
    pub channel: EventChannel,
    /// Whether a connect task is currently active.
    pub connect_active: bool,
}

/// A connect activation is accepted exactly while no task is active.
pub open spec fn enable_connect_accepts(s: SpotifyPlayer) -> bool {
    !s.connect_active
}

/// What an accepted connect activation leaves behind: the one task recorded
/// as active, everything else untouched.
pub open spec fn enable_connect_next(s: SpotifyPlayer) -> SpotifyPlayer {
    SpotifyPlayer {
        connect_active: true,
        handle: s.handle,
        session: s.session,
        config: s.config,
        channel: s.channel,
    }
}

impl SpotifyPlayer {
    /// A facade over a bootstrapped runtime and session: the configuration
    /// of `default_player_config`, a fresh connected event channel with the
    /// given capacity and poll wait bound, and no connect task active.
    pub fn new(
        handle: RuntimeHandle,
        session: Session,
        quality: Bitrate,
        capacity: usize,
        poll_wait_ms: u64,
    ) -> (r: SpotifyPlayer)
        requires
            capacity >= 1,
        ensures
            r.handle == handle,
            r.session == session,
            r.config == default_player_config(quality),
            r.channel@ == Seq::<Event>::empty(),
            r.channel.spec_capacity() == capacity,
            r.channel.spec_wait_ms() == poll_wait_ms,
            !r.channel.is_disconnected(),
            !r.connect_active,
    {
        SpotifyPlayer {
            handle,
            session,
            config: PlayerConfig {
                bitrate: quality,
                normalisation: false,
                normalisation_pregain_millidb: 0,
                gapless: true,
            },
            channel: EventChannel::new(capacity, poll_wait_ms),
            connect_active: false,
        }
    }

    /// Validate a track identifier and yield the load command: auto-start,
    /// from position zero. A malformed identifier is reported as
    /// `InvalidIdentifier` and leaves the facade unchanged, so later calls
    /// are unaffected.
    pub fn play(&mut self, track_id: &str) -> (r: Result<Command, SpotifyError>)
        ensures
            *final(self) == *old(self),
            valid_track_text(track_id@) ==> (r matches Ok(c) && c matches Command::Load {
                track,
                autostart,
                position_ms,
            } && track.wf() && track.text@ == track_id@ && autostart && position_ms == 0),
            !valid_track_text(track_id@) ==> r == Err::<Command, SpotifyError>(
                SpotifyError::InvalidIdentifier,
            ),
    {
        let track = TrackId::from_base62(track_id)?;
        Ok(Command::Load { track, autostart: true, position_ms: 0 })
    }

    /// The stop command, forwarded directly.
    pub fn stop(&self) -> (r: Command)
        ensures
            r == Command::Stop,
    {
        Command::Stop
    }

    /// The pause command, forwarded directly.
    pub fn pause(&self) -> (r: Command)
        ensures
            r == Command::Pause,
    {
        Command::Pause
    }

    /// The seek command for the given position, forwarded directly.
    pub fn seek(&self, position_ms: u32) -> (r: Command)
        ensures
            r == (Command::Seek { position_ms }),
    {
        Command::Seek { position_ms }
    }

    /// Activate connect mode. While no task is active: yields the spawn
    /// request — the connect configuration with auto-play on, a copy of
    /// the player configuration for the second player, and the shared
    /// session — and records the task as active. While one is active: the
    /// reject policy answers `ConnectTaskConflict` and changes nothing.
    pub fn enable_connect(
        &mut self,
        device_name: String,
        device_type: DeviceType,
        initial_volume: u16,
        volume_ctrl: VolumeCtrl,
    ) -> (r: Result<ConnectRequest, SpotifyError>)
        ensures
            enable_connect_accepts(*old(self)) ==> (r matches Ok(req) && req.config
                == (ConnectConfig {
                name: device_name,
                device_type,
                volume: initial_volume,
                autoplay: true,
                volume_ctrl,
            }) && req.player_config == old(self).config && req.session == old(self).session
                && final(self).connect_active),
            !enable_connect_accepts(*old(self)) ==> (r == Err::<ConnectRequest, SpotifyError>(
                SpotifyError::ConnectTaskConflict,
            ) && *final(self) == *old(self)),
            enable_connect_accepts(*old(self)) ==> *final(self) == enable_connect_next(
                *old(self),
            ),
    {
        if self.connect_active {
            return Err(SpotifyError::ConnectTaskConflict);
        }
        self.connect_active = true;
        Ok(
            ConnectRequest {
                config: ConnectConfig {
                    name: device_name,
                    device_type,
                    volume: initial_volume,
                    autoplay: true,
                    volume_ctrl,
                },
                player_config: self.config,
                session: self.session,
            },
        )
    }

    /// Deactivate connect mode. Reports whether a task was active, so the
    /// host can cancel it through its retained handle; afterwards none is.
    pub fn disable_connect(&mut self) -> (was_active: bool)
        ensures
            was_active == old(self).connect_active,
            !final(self).connect_active,
            final(self).handle == old(self).handle,
            final(self).session == old(self).session,
            final(self).config == old(self).config,
            final(self).channel == old(self).channel,
    {
        let was = self.connect_active;
        self.connect_active = false;
        was
    }

    /// The request for one blocking token call: client id and scope string
    /// forwarded as given. The host spawns the exchange and resolves the
    /// observed outcome through the token bridge.
    pub fn get_token(&self, client_id: String, scopes: String) -> (r: TokenRequest)
        ensures
            r.client_id == client_id,
            r.scopes == scopes,
    {
        TokenRequest { client_id, scopes }
    }

    /// Sink endpoint: a decoded audio frame becomes an `AudioData` event on
    /// the channel, under the channel's backpressure policy.
    pub fn write_audio(&mut self, data: Vec<i16>)
        requires
            !old(self).channel.is_disconnected(),
        ensures
            final(self).channel@ == produce_spec(
                old(self).channel@,
                old(self).channel.spec_capacity(),
                Event::AudioData { data },
            ),
            !final(self).channel.is_disconnected(),
            final(self).channel.spec_capacity() == old(self).channel.spec_capacity(),
            final(self).channel.spec_wait_ms() == old(self).channel.spec_wait_ms(),
            final(self).handle == old(self).handle,
            final(self).session == old(self).session,
            final(self).config == old(self).config,
            final(self).connect_active == old(self).connect_active,
    {
        self.channel.produce(Event::AudioData { data });
    }

    /// Forwarding endpoint: a state transition from the player's event
    /// stream is re-emitted onto the channel; the policy never drops it.
    pub fn publish_state_change(&mut self, e: PlayerStateChange)
        requires
            !old(self).channel.is_disconnected(),
        ensures
            final(self).channel@ == old(self).channel@.push(Event::PlayerStateChange { e }),
            !final(self).channel.is_disconnected(),
            final(self).channel.spec_capacity() == old(self).channel.spec_capacity(),
            final(self).channel.spec_wait_ms() == old(self).channel.spec_wait_ms(),
            final(self).handle == old(self).handle,
            final(self).session == old(self).session,
            final(self).config == old(self).config,
            final(self).connect_active == old(self).connect_active,
    {
        self.channel.produce(Event::PlayerStateChange { e });
    }

    /// The engine is torn down: the producer side disconnects, and polls of
    /// the emptied channel will report `ChannelDisconnected` from then on.
    pub fn engine_gone(&mut self)
        ensures
            final(self).channel@ == old(self).channel@,
            final(self).channel.is_disconnected(),
            final(self).channel.spec_capacity() == old(self).channel.spec_capacity(),
            final(self).channel.spec_wait_ms() == old(self).channel.spec_wait_ms(),
            final(self).handle == old(self).handle,
            final(self).session == old(self).session,
            final(self).config == old(self).config,
            final(self).connect_active == old(self).connect_active,
    {
        self.channel.disconnect();
    }

    /// One bounded-wait poll of the event channel, as `poll_outcome`
    /// prescribes: the oldest event, the no-event value, or
    /// `ChannelDisconnected`.
    pub fn poll(&mut self) -> (r: Result<Option<Event>, SpotifyError>)
        ensures
            r == poll_outcome(old(self).channel@, old(self).channel.is_disconnected()),
            final(self).channel@ == poll_rest(
                old(self).channel@,
                old(self).channel.is_disconnected(),
            ),
            final(self).channel.is_disconnected() == old(self).channel.is_disconnected(),
            final(self).channel.spec_capacity() == old(self).channel.spec_capacity(),
            final(self).channel.spec_wait_ms() == old(self).channel.spec_wait_ms(),
            final(self).handle == old(self).handle,
            final(self).session == old(self).session,
            final(self).config == old(self).config,
            final(self).connect_active == old(self).connect_active,
    {
        self.channel.poll()
    }

    /// One poll, with the polled event already in its caller-visible
    /// structured form; the channel changes exactly as under `poll`.
    pub fn poll_described(&mut self) -> (r: Result<Option<EventDescription>, SpotifyError>)
        ensures
            final(self).channel@ == poll_rest(
                old(self).channel@,
                old(self).channel.is_disconnected(),
            ),
            final(self).channel.is_disconnected() == old(self).channel.is_disconnected(),
            final(self).channel.spec_capacity() == old(self).channel.spec_capacity(),
            final(self).channel.spec_wait_ms() == old(self).channel.spec_wait_ms(),
            final(self).handle == old(self).handle,
            final(self).session == old(self).session,
            final(self).config == old(self).config,
            final(self).connect_active == old(self).connect_active,
            poll_outcome(old(self).channel@, old(self).channel.is_disconnected()) matches Ok(
                Some(e),
            ) ==> r matches Ok(Some(d)) && d.name@ == name_of(e) && d.data.deep_view()
                == audio_field(e) && d.track_id.deep_view() == track_field(e) && d.position_ms
                == position_field(e) && d.duration_ms == duration_field(e)
                && d.old_track_id.deep_view() == old_track_field(e) && d.new_track_id.deep_view()
                == new_track_field(e) && d.volume == volume_field(e),
            poll_outcome(old(self).channel@, old(self).channel.is_disconnected()) == Ok::<
                Option<Event>,
                SpotifyError,
            >(None) ==> r == Ok::<Option<EventDescription>, SpotifyError>(None),
            poll_outcome(old(self).channel@, old(self).channel.is_disconnected()) matches Err(x)
                ==> r == Err::<Option<EventDescription>, SpotifyError>(x),
    {
        match self.channel.poll() {
            Ok(Some(e)) => Ok(Some(EventDescription::of(&e))),
            Ok(None) => Ok(None),
            Err(x) => Err(x),
        }
    }
}

/// Two connect activations in a row leave exactly one task active: the
/// first is accepted and records the task; from the state it leaves, a
/// second attempt is rejected, so the one task from the first call is
/// still the only active one.
pub proof fn lemma_second_connect_is_rejected(s: SpotifyPlayer)
    requires
        enable_connect_accepts(s),
    ensures
        enable_connect_next(s).connect_active,
        !enable_connect_accepts(enable_connect_next(s)),
{
}

/// Compare two short tags.
fn str_eq(a: &str, b: &str) -> (r: bool)
    ensures
        r == (a@ == b@),
{
    let an = a.unicode_len();
    let bn = b.unicode_len();
    if an != bn {
        assert(a@.len() != b@.len());
        return false;
    }
    let mut i: usize = 0;
    while i < an
        invariant
            i <= an,
            an == a@.len(),
            an == b@.len(),
            forall|j: int| 0 <= j < i ==> a@[j] == b@[j],
        decreases an - i,
    {
        if a.get_char(i) != b.get_char(i) {
            return false;
        }
        i += 1;
    }
    proof {
        assert(a@ =~= b@);
    }
    true
}

} // verus!
