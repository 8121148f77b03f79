use vstd::prelude::*;
use crate::error::ConvertError;
use crate::model::{
    AlbumModel, AutoRepeatMode, MediaModel, PlaybackModel, PlaybackStatus, PlaybackType,
    TimelineModel,
};

verus! {

/// Native playback-status codes of the session broker.
pub const STATUS_CLOSED: i32 = 0;
pub const STATUS_OPENED: i32 = 1;
pub const STATUS_CHANGING: i32 = 2;
pub const STATUS_STOPPED: i32 = 3;
pub const STATUS_PLAYING: i32 = 4;
pub const STATUS_PAUSED: i32 = 5;

/// Native playback-type codes.
pub const TYPE_UNKNOWN: i32 = 0;
pub const TYPE_MUSIC: i32 = 1;
pub const TYPE_VIDEO: i32 = 2;
pub const TYPE_IMAGE: i32 = 3;

/// Native auto-repeat codes.
pub const REPEAT_NONE: i32 = 0;
pub const REPEAT_TRACK: i32 = 1;
pub const REPEAT_LIST: i32 = 2;

/// Playback properties as the broker reports them; `None` marks a property
/// whose query failed.
#[derive(Debug, Clone, Copy, PartialEq, Eq)]
pub struct RawPlaybackInfo {
    pub status: Option<i32>,
    pub playback_type: Option<i32>,
    pub rate_bits: Option<u64>,
    pub shuffle: Option<bool>,
    pub auto_repeat: Option<i32>,
}

/// Timeline properties as the broker reports them; `None` marks a failed query.
#[derive(Debug, Clone, Copy, PartialEq, Eq)]
pub struct RawTimelineInfo {
    pub start: Option<i64>,
    pub end: Option<i64>,
    pub position: Option<i64>,
    pub last_updated: Option<i64>,
}

/// Media properties as the broker reports them; `None` marks a failed query.
#[derive(Debug, Clone, PartialEq, Eq)]
pub struct RawMediaProperties {
    pub title: Option<String>,
    pub subtitle: Option<String>,
    pub artist: Option<String>,
    pub album_artist: Option<String>,
    pub album_title: Option<String>,
    pub album_track_count: Option<i32>,
    pub playback_type: Option<i32>,
    pub genres: Option<Vec<String>>,
}

/// The status a native code stands for; codes outside the model have none.
pub open spec fn status_of_code(code: i32) -> Option<PlaybackStatus> {
    if code == STATUS_CLOSED {
        Some(PlaybackStatus::Closed)
    } else if code == STATUS_OPENED {
        Some(PlaybackStatus::Opened)
    } else if code == STATUS_CHANGING {
        Some(PlaybackStatus::Changing)
    } else if code == STATUS_STOPPED {
        Some(PlaybackStatus::Stopped)
    } else if code == STATUS_PLAYING {
        Some(PlaybackStatus::Playing)
    } else if code == STATUS_PAUSED {
        Some(PlaybackStatus::Paused)
    } else {
        None
    }
}

/// The playback type a native code stands for, `Unknown` for any other code.
pub open spec fn type_of_code(code: i32) -> PlaybackType {
    if code == TYPE_MUSIC {
        PlaybackType::Music
    } else if code == TYPE_VIDEO {
        PlaybackType::Video
    } else if code == TYPE_IMAGE {
        PlaybackType::Image
    } else {
        PlaybackType::Unknown
    }
}

/// The auto-repeat mode a native code stands for; other codes have none.
pub open spec fn repeat_of_code(code: i32) -> Option<AutoRepeatMode> {
    if code == REPEAT_NONE {
        Some(AutoRepeatMode::Off)
    } else if code == REPEAT_TRACK {
        Some(AutoRepeatMode::Track)
    } else if code == REPEAT_LIST {
        Some(AutoRepeatMode::List)
    } else {
        None
    }
}

/// The absolute value of a signed count.
pub open spec fn abs_count(n: i32) -> nat {
    if n < 0 { (-n) as nat } else { n as nat }
}

/// A playback bundle converts exactly when its status is present and known.
pub open spec fn playback_convertible(raw: RawPlaybackInfo) -> bool {
    raw.status is Some && status_of_code(raw.status->Some_0) is Some
}

/// The playback state of a convertible bundle: optional properties default
/// to `Unknown`, a rate of 0.0, no shuffle and no repeat mode.
pub open spec fn playback_of(raw: RawPlaybackInfo) -> PlaybackModel {
    PlaybackModel {
        status: status_of_code(raw.status->Some_0)->Some_0,
        playback_type: match raw.playback_type {
            Some(c) => type_of_code(c),
            None => PlaybackType::Unknown,
        },
        rate_bits: match raw.rate_bits {
            Some(r) => r,
            None => 0,
        },
        shuffle: match raw.shuffle {
            Some(s) => s,
            None => false,
        },
        auto_repeat: match raw.auto_repeat {
            Some(c) => repeat_of_code(c),
            None => None,
        },
    }
}

/// A timeline bundle converts exactly when all four properties are present.
pub open spec fn timeline_convertible(raw: RawTimelineInfo) -> bool {
    &&& raw.start is Some
    &&& raw.end is Some
    &&& raw.position is Some
    &&& raw.last_updated is Some
}

pub open spec fn timeline_of(raw: RawTimelineInfo) -> TimelineModel {
    TimelineModel {
        start: raw.start->Some_0,
        end: raw.end->Some_0,
        position: raw.position->Some_0,
        last_updated_at_ms: raw.last_updated->Some_0,
    }
}

/// The album properties convert exactly when artist, title and track count
/// are all present.
pub open spec fn album_convertible(raw: RawMediaProperties) -> bool {
    &&& raw.album_artist is Some
    &&& raw.album_title is Some
    &&& raw.album_track_count is Some
}

pub open spec fn album_of(raw: RawMediaProperties) -> AlbumModel {
    AlbumModel {
        artist: raw.album_artist->Some_0,
        title: raw.album_title->Some_0,
        track_count: abs_count(raw.album_track_count->Some_0) as u32,
    }
}

/// The album of a media bundle, absent when it does not convert.
pub open spec fn optional_album_of(raw: RawMediaProperties) -> Option<AlbumModel> {
    if album_convertible(raw) {
        Some(album_of(raw))
    } else {
        None
    }
}

/// The media properties convert exactly when title, subtitle, artist and
/// playback type are present.
pub open spec fn media_convertible(raw: RawMediaProperties) -> bool {
    &&& raw.title is Some
    &&& raw.subtitle is Some
    &&& raw.artist is Some
    &&& raw.playback_type is Some
}

/// The genres of a media bundle, empty when their query failed.
pub open spec fn genres_of(raw: RawMediaProperties) -> Seq<String> {
    match raw.genres {
        Some(g) => g@,
        None => Seq::empty(),
    }
}

/// `m` is the media metadata of the convertible bundle `raw`.
pub open spec fn media_matches(m: MediaModel, raw: RawMediaProperties) -> bool {
    &&& m.title == raw.title->Some_0
    &&& m.subtitle == raw.subtitle->Some_0
    &&& m.artist == raw.artist->Some_0
    &&& m.album == optional_album_of(raw)
    &&& m.track_number is None
    &&& m.genres@ == genres_of(raw)
    &&& m.playback_type == type_of_code(raw.playback_type->Some_0)
}

pub fn status_from_code(code: i32) -> (r: Option<PlaybackStatus>)
    ensures
        r == status_of_code(code),
{
    if code == STATUS_CLOSED {
        Some(PlaybackStatus::Closed)
    } else if code == STATUS_OPENED {
        Some(PlaybackStatus::Opened)
    } else if code == STATUS_CHANGING {
        Some(PlaybackStatus::Changing)
    } else if code == STATUS_STOPPED {
        Some(PlaybackStatus::Stopped)
    } else if code == STATUS_PLAYING {
        Some(PlaybackStatus::Playing)
    } else if code == STATUS_PAUSED {
        Some(PlaybackStatus::Paused)
    } else {
        None
    }
}

pub fn type_from_code(code: i32) -> (r: PlaybackType)
    ensures
        r == type_of_code(code),
{
    if code == TYPE_MUSIC {
        PlaybackType::Music
    } else if code == TYPE_VIDEO {
        PlaybackType::Video
    } else if code == TYPE_IMAGE {
        PlaybackType::Image
    } else {
        PlaybackType::Unknown
    }
}

pub fn repeat_from_code(code: i32) -> (r: Option<AutoRepeatMode>)
    ensures
        r == repeat_of_code(code),
{
    if code == REPEAT_NONE {
        Some(AutoRepeatMode::Off)
    } else if code == REPEAT_TRACK {
        Some(AutoRepeatMode::Track)
    } else if code == REPEAT_LIST {
        Some(AutoRepeatMode::List)
    } else {
        None
    }
}

fn convert_error(message: &str) -> (e: ConvertError) {
    ConvertError { message: message.to_string() }
}

/// Converts a playback bundle. A missing or unknown status fails the whole
/// conversion; every other property falls back to its default.
pub fn convert_playback_info(playback_info: &RawPlaybackInfo) -> (r: Result<PlaybackModel, ConvertError>)
    ensures
        r is Ok <==> playback_convertible(*playback_info),
        r is Ok ==> r->Ok_0 == playback_of(*playback_info),
        playback_info.status is None ==> r is Err,
        playback_convertible(*playback_info) && playback_info.rate_bits is None ==> r->Ok_0.rate_bits
            == 0,
{
    let status = match playback_info.status {
        Some(code) => match status_from_code(code) {
            Some(s) => s,
            None => {
                return Err(convert_error("Unknown playback status."));
            },
        },
        None => {
            return Err(convert_error("Failed to get playback status."));
        },
    };
    let playback_type = match playback_info.playback_type {
        Some(code) => type_from_code(code),
        None => PlaybackType::Unknown,
    };
    let auto_repeat = match playback_info.auto_repeat {
        Some(code) => repeat_from_code(code),
        None => None,
    };
    let rate_bits: u64 = match playback_info.rate_bits {
        Some(r) => r,
        None => 0,
    };
    let shuffle = match playback_info.shuffle {
        Some(s) => s,
        None => false,
    };
    Ok(PlaybackModel { status, playback_type, rate_bits, shuffle, auto_repeat })
}

/// Converts a timeline bundle; any missing property fails the whole conversion.
pub fn convert_timeline_info(timeline_info: &RawTimelineInfo) -> (r: Result<TimelineModel, ConvertError>)
    ensures
        r is Ok <==> timeline_convertible(*timeline_info),
        r is Ok ==> r->Ok_0 == timeline_of(*timeline_info),
{
    let start = match timeline_info.start {
        Some(s) => s,
        None => {
            return Err(convert_error("Failed to get start time."));
        },
    };
    let end = match timeline_info.end {
        Some(e) => e,
        None => {
            return Err(convert_error("Failed to get end time."));
        },
    };
    let position = match timeline_info.position {
        Some(p) => p,
        None => {
            return Err(convert_error("Failed to get position."));
        },
    };
    let last_updated_at_ms = match timeline_info.last_updated {
        Some(t) => t,
        None => {
            return Err(convert_error("Failed to get last updated time."));
        },
    };
    Ok(TimelineModel { start, end, position, last_updated_at_ms })
}

/// The absolute value of a signed track count.
pub fn unsigned_count(n: i32) -> (r: u32)
    ensures
        r as nat == abs_count(n),
{
    if n < 0 {
        (-(n as i64)) as u32
    } else {
        n as u32
    }
}

/// Converts the album part of a media bundle; any missing property fails it.
pub fn convert_album_info(album_info: &RawMediaProperties) -> (r: Result<AlbumModel, ConvertError>)
    ensures
        r is Ok <==> album_convertible(*album_info),
        r is Ok ==> r->Ok_0 == album_of(*album_info),
{
    let artist = match &album_info.album_artist {
        Some(a) => a.clone(),
        None => {
            return Err(convert_error("Failed to get album artist."));
        },
    };
    let title = match &album_info.album_title {
        Some(t) => t.clone(),
        None => {
            return Err(convert_error("Failed to get album title."));
        },
    };
    let track_count = match album_info.album_track_count {
        Some(c) => unsigned_count(c),
        None => {
            return Err(convert_error("Failed to get album track count."));
        },
    };
    Ok(AlbumModel { artist, title, track_count })
}

/// A copy of a list of strings.
fn copy_strings(v: &Vec<String>) -> (r: Vec<String>)
    ensures
        r@ == v@,
{
    let mut r: Vec<String> = Vec::new();
    let mut i: usize = 0;
    while i < v.len()
        invariant
            i <= v.len(),
            r@ == v@.subrange(0, i as int),
        decreases v.len() - i,
    {
        r.push(v[i].clone());
        i = i + 1;
    }
    assert(r@ =~= v@);
    r
}

/// Converts a media bundle. Title, subtitle, artist and playback type are
/// required; the album is absent when it does not convert, and the genres are
/// empty when their query failed.
pub fn convert_media_info(media_info: &RawMediaProperties) -> (r: Result<MediaModel, ConvertError>)
    ensures
        r is Ok <==> media_convertible(*media_info),
        r is Ok ==> media_matches(r->Ok_0, *media_info),
{
    let album = match convert_album_info(media_info) {
        Ok(a) => Some(a),
        Err(_) => None,
    };
    let playback_type = match media_info.playback_type {
        Some(code) => type_from_code(code),
        None => {
            return Err(convert_error("Failed to get playback type."));
        },
    };
    let title = match &media_info.title {
        Some(t) => t.clone(),
        None => {
            return Err(convert_error("Failed to get title."));
        },
    };
    let subtitle = match &media_info.subtitle {
        Some(s) => s.clone(),
        None => {
            return Err(convert_error("Failed to get subtitle."));
        },
    };
    let artist = match &media_info.artist {
        Some(a) => a.clone(),
        None => {
            return Err(convert_error("Failed to get artist."));
        },
    };
    let genres = match &media_info.genres {
        Some(g) => copy_strings(g),
        None => Vec::new(),
    };
    Ok(MediaModel { title, subtitle, artist, album, track_number: None, genres, playback_type })
}

} // verus!
