//! Domain events and their caller-visible structured form.
//!
//! The engine produces raw audio frames and player-state transitions; both
//! travel through the event channel as [`Event`] values. The poll side turns
//! each into an [`EventDescription`]: a flat record with a `name`
//! discriminator and exactly the fields that belong to that event.

use vstd::prelude::*;

verus! {

use crate::track::TrackId;

/// A player-state transition reported by the engine.
#[derive(Debug, PartialEq, Eq)]
pub enum PlayerStateChange {
    Started { track: TrackId, position_ms: u32 },
    Stopped { track: TrackId },
    Changed { old_track: TrackId, new_track: TrackId },
    Loading { track: TrackId, position_ms: u32 },
    Playing { track: TrackId, position_ms: u32, duration_ms: u32 },
    Paused { track: TrackId, position_ms: u32, duration_ms: u32 },
    EndOfTrack { track: TrackId },
    VolumeSet { volume: u16 },
    TimeToPreloadNextTrack { track: TrackId },
    Unavailable { track: TrackId },
}

/// One queued domain event: a decoded audio frame or a state transition.
#[derive(Debug, PartialEq, Eq)]
pub enum Event {
    AudioData { data: Vec<i16> },
    PlayerStateChange { e: PlayerStateChange },
}

impl Event {
    /// Audio frames may be dropped under backpressure; state transitions never.
    pub open spec fn is_audio(self) -> bool {
        self is AudioData
    }
}

/// The `name` discriminator of an event.
pub open spec fn name_of(e: Event) -> Seq<char> {
    match e {
        Event::AudioData { .. } => "audio-data"@,
        Event::PlayerStateChange { e } => match e {
            PlayerStateChange::Started { .. } => "started"@,
            PlayerStateChange::Stopped { .. } => "stopped"@,
            PlayerStateChange::Changed { .. } => "changed"@,
            PlayerStateChange::Loading { .. } => "loading"@,
            PlayerStateChange::Playing { .. } => "playing"@,
            PlayerStateChange::Paused { .. } => "paused"@,
            PlayerStateChange::EndOfTrack { .. } => "end-of-track"@,
            PlayerStateChange::VolumeSet { .. } => "volume-set"@,
            PlayerStateChange::TimeToPreloadNextTrack { .. } => "time-to-preload-next-track"@,
            PlayerStateChange::Unavailable { .. } => "unavailable"@,
        },
    }
}

/// The `trackId` field of an event, where it has one.
pub open spec fn track_field(e: Event) -> Option<Seq<char>> {
    match e {
        Event::PlayerStateChange { e } => match e {
            PlayerStateChange::Started { track, .. } => Some(track.text@),
            PlayerStateChange::Stopped { track } => Some(track.text@),
            PlayerStateChange::Loading { track, .. } => Some(track.text@),
            PlayerStateChange::Playing { track, .. } => Some(track.text@),
            PlayerStateChange::Paused { track, .. } => Some(track.text@),
            PlayerStateChange::EndOfTrack { track } => Some(track.text@),
            PlayerStateChange::TimeToPreloadNextTrack { track } => Some(track.text@),
            PlayerStateChange::Unavailable { track } => Some(track.text@),
            _ => None,
        },
        _ => None,
    }
}

/// The `positionMs` field of an event, where it has one.
pub open spec fn position_field(e: Event) -> Option<u32> {
    match e {
        Event::PlayerStateChange { e } => match e {
            PlayerStateChange::Started { position_ms, .. } => Some(position_ms),
            PlayerStateChange::Loading { position_ms, .. } => Some(position_ms),
            PlayerStateChange::Playing { position_ms, .. } => Some(position_ms),
            PlayerStateChange::Paused { position_ms, .. } => Some(position_ms),
            _ => None,
        },
        _ => None,
    }
}

/// The `durationMs` field of an event, where it has one.
pub open spec fn duration_field(e: Event) -> Option<u32> {
    match e {
        Event::PlayerStateChange { e } => match e {
            PlayerStateChange::Playing { duration_ms, .. } => Some(duration_ms),
            PlayerStateChange::Paused { duration_ms, .. } => Some(duration_ms),
            _ => None,
        },
        _ => None,
    }
}

/// The `oldTrackId` field of an event, where it has one.
pub open spec fn old_track_field(e: Event) -> Option<Seq<char>> {
    match e {
        Event::PlayerStateChange { e: PlayerStateChange::Changed { old_track, .. } } => Some(
            old_track.text@,
        ),
        _ => None,
    }
}

/// The `newTrackId` field of an event, where it has one.
pub open spec fn new_track_field(e: Event) -> Option<Seq<char>> {
    match e {
        Event::PlayerStateChange { e: PlayerStateChange::Changed { new_track, .. } } => Some(
            new_track.text@,
        ),
        _ => None,
    }
}

/// The `volume` field of an event, where it has one.
pub open spec fn volume_field(e: Event) -> Option<u16> {
    match e {
        Event::PlayerStateChange { e: PlayerStateChange::VolumeSet { volume } } => Some(volume),
        _ => None,
    }
}

/// The `data` field of an event: the audio samples, where it has them.
pub open spec fn audio_field(e: Event) -> Option<Seq<i16>> {
    match e {
        Event::AudioData { data } => Some(data@),
        _ => None,
    }
}

/// The flat, caller-visible form of one event: the `name` discriminator and
/// exactly the fields that belong to that event; every other field absent.
#[derive(Debug, PartialEq, Eq)]
pub struct EventDescription {
    pub name: String,
    pub data: Option<Vec<i16>>,
    pub track_id: Option<String>,
    pub position_ms: Option<u32>,
    pub duration_ms: Option<u32>,
    pub old_track_id: Option<String>,
    pub new_track_id: Option<String>,
    pub volume: Option<u16>,
}

impl EventDescription {
    /// Describe `e`: each field of the result is the corresponding field of
    /// the event, and the name is its discriminator.
    pub fn of(e: &Event) -> (r: EventDescription)
        ensures
            r.name@ == name_of(*e),
            r.data.deep_view() == audio_field(*e),
            r.track_id.deep_view() == track_field(*e),
            r.position_ms == position_field(*e),
            r.duration_ms == duration_field(*e),
            r.old_track_id.deep_view() == old_track_field(*e),
            r.new_track_id.deep_view() == new_track_field(*e),
            r.volume == volume_field(*e),
    {
        let mut r = EventDescription {
            name: String::new(),
            data: None,
            track_id: None,
            position_ms: None,
            duration_ms: None,
            old_track_id: None,
            new_track_id: None,
            volume: None,
        };
        match e {
            Event::AudioData { data } => {
                r.name = String::from_str("audio-data");
                let mut copy: Vec<i16> = Vec::new();
                let mut i: usize = 0;
                while i < data.len()
                    invariant
                        i <= data.len(),
                        copy@ == data@.subrange(0, i as int),
                    decreases data.len() - i,
                {
                    copy.push(data[i]);
                    proof {
                        assert(copy@ =~= data@.subrange(0, i as int + 1));
                    }
                    i += 1;
                }
                proof {
                    assert(copy@ =~= data@);
                }
                r.data = Some(copy);
            },
            Event::PlayerStateChange { e } => match e {
                PlayerStateChange::Started { track, position_ms } => {
                    r.name = String::from_str("started");
                    r.track_id = Some(String::from_str(track.text.as_str()));
                    r.position_ms = Some(*position_ms);
                },
                PlayerStateChange::Stopped { track } => {
                    r.name = String::from_str("stopped");
                    r.track_id = Some(String::from_str(track.text.as_str()));
                },
                PlayerStateChange::Changed { old_track, new_track } => {
                    r.name = String::from_str("changed");
                    r.old_track_id = Some(String::from_str(old_track.text.as_str()));
                    r.new_track_id = Some(String::from_str(new_track.text.as_str()));
                },
                PlayerStateChange::Loading { track, position_ms } => {
                    r.name = String::from_str("loading");
                    r.track_id = Some(String::from_str(track.text.as_str()));
                    r.position_ms = Some(*position_ms);
                },
                PlayerStateChange::Playing { track, position_ms, duration_ms } => {
                    r.name = String::from_str("playing");
                    r.track_id = Some(String::from_str(track.text.as_str()));
                    r.position_ms = Some(*position_ms);
                    r.duration_ms = Some(*duration_ms);
                },
                PlayerStateChange::Paused { track, position_ms, duration_ms } => {
                    r.name = String::from_str("paused");
                    r.track_id = Some(String::from_str(track.text.as_str()));
                    r.position_ms = Some(*position_ms);
                    r.duration_ms = Some(*duration_ms);
                },
                PlayerStateChange::EndOfTrack { track } => {
                    r.name = String::from_str("end-of-track");
                    r.track_id = Some(String::from_str(track.text.as_str()));
                },
                PlayerStateChange::VolumeSet { volume } => {
                    r.name = String::from_str("volume-set");
                    r.volume = Some(*volume);
                },
                PlayerStateChange::TimeToPreloadNextTrack { track } => {
                    r.name = String::from_str("time-to-preload-next-track");
                    r.track_id = Some(String::from_str(track.text.as_str()));
                },
                PlayerStateChange::Unavailable { track } => {
                    r.name = String::from_str("unavailable");
                    r.track_id = Some(String::from_str(track.text.as_str()));
                },
            },
        }
        r
    }
}

} // verus!
