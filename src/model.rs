use vstd::prelude::*;

verus! {

/// Playback status of a session.
#[derive(Debug, Clone, Copy, PartialEq, Eq, Structural)]
pub enum PlaybackStatus {
    Changing,
    Closed,
    Opened,
    Paused,
    Playing,
    Stopped,
}

/// Kind of media a session plays; `Unknown` is also the fallback for
/// values the data model has no name for.
#[derive(Debug, Clone, Copy, PartialEq, Eq, Structural)]
pub enum PlaybackType {
    Image,
    Music,
    Unknown,
    Video,
}

/// Auto-repeat mode of a session.
#[derive(Debug, Clone, Copy, PartialEq, Eq, Structural)]
pub enum AutoRepeatMode {
    /// Repeat the whole list.
    List,
    /// No repetition.
    Off,
    /// Repeat the current track.
    Track,
}

/// Normalized playback state. The rate is carried as the bit pattern of an
/// IEEE-754 double (`f64::to_bits`), so that a rate of 0.0 is `rate_bits == 0`.
#[derive(Debug, Clone, Copy, PartialEq, Eq, Structural)]
pub struct PlaybackModel {
    pub status: PlaybackStatus,
    pub playback_type: PlaybackType,
    pub rate_bits: u64,
    pub shuffle: bool,
    pub auto_repeat: Option<AutoRepeatMode>,
}

/// Normalized timeline; durations share one time base.
#[derive(Debug, Clone, Copy, PartialEq, Eq, Structural)]
pub struct TimelineModel {
    pub start: i64,
    pub end: i64,
    pub position: i64,
    pub last_updated_at_ms: i64,
}

/// Album of the media item.
#[derive(Debug, Clone, PartialEq, Eq)]
pub struct AlbumModel {
    pub artist: String,
    pub title: String,
    pub track_count: u32,
}

/// Normalized media metadata.
#[derive(Debug, Clone, PartialEq, Eq)]
pub struct MediaModel {
    pub title: String,
    pub subtitle: String,
    pub artist: String,
    pub album: Option<AlbumModel>,
    pub track_number: Option<u32>,
    pub genres: Vec<String>,
    pub playback_type: PlaybackType,
}

/// Point-in-time view of one session; each sub-model is absent when it could
/// not be converted.
#[derive(Debug, Clone, PartialEq, Eq)]
pub struct SessionModel {
    pub playback: Option<PlaybackModel>,
    pub timeline: Option<TimelineModel>,
    pub media: Option<MediaModel>,
    pub source: String,
}

/// Now-playing summary of a session.
#[derive(Debug, Clone, PartialEq, Eq)]
pub struct NowPlaying {
    pub title: String,
    pub artist: String,
    pub album: String,
    pub thumbnail: Option<Vec<u8>>,
    pub guid: String,
}

/// One entry of the one-shot enumeration of the broker's sessions.
#[derive(Debug, Clone, PartialEq, Eq)]
pub struct CurrentSession {
    pub source: String,
    pub session: SessionModel,
    pub image: Option<Vec<u8>>,
    pub session_id: usize,
}

/// Payload of a `session_create` event.
#[derive(Debug, Clone, PartialEq, Eq)]
pub struct SessionCreate {
    pub session_id: usize,
    pub source: String,
}

/// Payload of a `session_update` event.
#[derive(Debug, Clone, PartialEq, Eq)]
pub struct SessionUpdate {
    pub session_id: usize,
    pub source: String,
    pub session_model: SessionModel,
    pub image: Option<Vec<u8>>,
}

/// Payload of a `session_remove` event.
#[derive(Debug, Clone, Copy, PartialEq, Eq, Structural)]
pub struct SessionRemove {
    pub session_id: usize,
}

/// Payload of a `current_session_change` event.
#[derive(Debug, Clone, Copy, PartialEq, Eq, Structural)]
pub struct ActiveSessionChange {
    pub session_id: usize,
}

/// Payload of a `current_session_remove` event.
#[derive(Debug, Clone, Copy, PartialEq, Eq, Structural)]
pub struct ActiveSessionRemove;

/// Control verbs a session accepts.
#[derive(Debug, Clone, Copy, PartialEq, Eq, Structural)]
pub enum SessionControl {
    Play,
    Pause,
    TogglePlayPause,
    FastForward,
    Rewind,
    SkipNext,
    SkipPrevious,
}

} // verus!
