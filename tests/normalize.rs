use media_sessions::convert::{
    convert_album_info, convert_media_info, convert_playback_info, convert_timeline_info,
    unsigned_count, RawMediaProperties, RawPlaybackInfo, RawTimelineInfo, REPEAT_LIST,
    STATUS_PAUSED, STATUS_PLAYING, TYPE_MUSIC, TYPE_VIDEO,
};
use media_sessions::model::{AlbumModel, AutoRepeatMode, PlaybackStatus, PlaybackType};
use media_sessions::snapshot::{build_session, collect_sessions, RawSession};

fn full_playback() -> RawPlaybackInfo {
    RawPlaybackInfo {
        status: Some(STATUS_PLAYING),
        playback_type: Some(TYPE_MUSIC),
        rate_bits: Some(1.5f64.to_bits()),
        shuffle: Some(true),
        auto_repeat: Some(REPEAT_LIST),
    }
}

fn full_timeline() -> RawTimelineInfo {
    RawTimelineInfo { start: Some(0), end: Some(2_000), position: Some(500), last_updated: Some(99) }
}

fn full_media() -> RawMediaProperties {
    RawMediaProperties {
        title: Some("Song".to_string()),
        subtitle: Some(String::new()),
        artist: Some("Band".to_string()),
        album_artist: Some("Band".to_string()),
        album_title: Some("Record".to_string()),
        album_track_count: Some(-12),
        playback_type: Some(TYPE_VIDEO),
        genres: Some(vec!["Rock".to_string(), "Pop".to_string()]),
    }
}

#[test]
fn playback_without_status_fails() {
    let raw = RawPlaybackInfo { status: None, ..full_playback() };
    assert!(convert_playback_info(&raw).is_err());
}

#[test]
fn playback_with_unknown_status_fails() {
    let raw = RawPlaybackInfo { status: Some(42), ..full_playback() };
    assert!(convert_playback_info(&raw).is_err());
}

#[test]
fn playback_without_rate_defaults_rate() {
    let raw = RawPlaybackInfo { rate_bits: None, ..full_playback() };
    let p = convert_playback_info(&raw).unwrap();
    assert_eq!(f64::from_bits(p.rate_bits), 0.0);
    assert_eq!(p.status, PlaybackStatus::Playing);
    assert_eq!(p.playback_type, PlaybackType::Music);
    assert!(p.shuffle);
    assert_eq!(p.auto_repeat, Some(AutoRepeatMode::List));
}

#[test]
fn playback_optional_fields_default() {
    let raw = RawPlaybackInfo {
        status: Some(STATUS_PAUSED),
        playback_type: None,
        rate_bits: None,
        shuffle: None,
        auto_repeat: None,
    };
    let p = convert_playback_info(&raw).unwrap();
    assert_eq!(p.status, PlaybackStatus::Paused);
    assert_eq!(p.playback_type, PlaybackType::Unknown);
    assert_eq!(p.rate_bits, 0);
    assert!(!p.shuffle);
    assert_eq!(p.auto_repeat, None);
}

#[test]
fn unrecognized_codes_fall_back() {
    let raw = RawPlaybackInfo { playback_type: Some(17), auto_repeat: Some(9), ..full_playback() };
    let p = convert_playback_info(&raw).unwrap();
    assert_eq!(p.playback_type, PlaybackType::Unknown);
    assert_eq!(p.auto_repeat, None);
    assert_eq!(f64::from_bits(p.rate_bits), 1.5);
}

#[test]
fn timeline_needs_every_field() {
    let t = convert_timeline_info(&full_timeline()).unwrap();
    assert_eq!((t.start, t.end, t.position, t.last_updated_at_ms), (0, 2_000, 500, 99));
    assert!(convert_timeline_info(&RawTimelineInfo { start: None, ..full_timeline() }).is_err());
    assert!(convert_timeline_info(&RawTimelineInfo { end: None, ..full_timeline() }).is_err());
    assert!(convert_timeline_info(&RawTimelineInfo { position: None, ..full_timeline() }).is_err());
    assert!(convert_timeline_info(&RawTimelineInfo { last_updated: None, ..full_timeline() }).is_err());
}

#[test]
fn album_track_count_is_unsigned() {
    let a = convert_album_info(&full_media()).unwrap();
    assert_eq!(
        a,
        AlbumModel { artist: "Band".to_string(), title: "Record".to_string(), track_count: 12 }
    );
    assert_eq!(unsigned_count(i32::MIN), 2_147_483_648);
    assert_eq!(unsigned_count(7), 7);
    assert!(convert_album_info(&RawMediaProperties { album_title: None, ..full_media() }).is_err());
}

#[test]
fn media_degrades_album_and_genres() {
    let m = convert_media_info(&full_media()).unwrap();
    assert_eq!(m.title, "Song");
    assert_eq!(m.subtitle, "");
    assert_eq!(m.artist, "Band");
    assert_eq!(m.genres, vec!["Rock".to_string(), "Pop".to_string()]);
    assert_eq!(m.playback_type, PlaybackType::Video);
    assert_eq!(m.track_number, None);
    assert_eq!(m.album.unwrap().track_count, 12);

    let raw = RawMediaProperties { album_artist: None, genres: None, ..full_media() };
    let m = convert_media_info(&raw).unwrap();
    assert_eq!(m.album, None);
    assert!(m.genres.is_empty());
}

#[test]
fn media_needs_required_fields() {
    assert!(convert_media_info(&RawMediaProperties { title: None, ..full_media() }).is_err());
    assert!(convert_media_info(&RawMediaProperties { subtitle: None, ..full_media() }).is_err());
    assert!(convert_media_info(&RawMediaProperties { artist: None, ..full_media() }).is_err());
    assert!(convert_media_info(&RawMediaProperties { playback_type: None, ..full_media() }).is_err());
    let m = convert_media_info(&RawMediaProperties { playback_type: Some(99), ..full_media() }).unwrap();
    assert_eq!(m.playback_type, PlaybackType::Unknown);
}

fn raw_session(source: Option<&str>) -> RawSession {
    RawSession {
        source: source.map(|s| s.to_string()),
        playback: Some(full_playback()),
        timeline: Some(full_timeline()),
        media: Some(full_media()),
        thumbnail: Some(vec![9, 8, 7]),
    }
}

#[test]
fn snapshot_keeps_what_converts() {
    let raw = RawSession {
        playback: Some(RawPlaybackInfo { status: None, ..full_playback() }),
        timeline: None,
        ..raw_session(Some("Player.exe"))
    };
    let s = build_session(4, raw).unwrap();
    assert_eq!(s.session_id, 4);
    assert_eq!(s.source, "Player.exe");
    assert_eq!(s.session.source, "Player.exe");
    assert_eq!(s.session.playback, None);
    assert_eq!(s.session.timeline, None);
    assert_eq!(s.session.media.unwrap().title, "Song");
    assert_eq!(s.image, Some(vec![9, 8, 7]));
    assert_eq!(build_session(0, raw_session(None)), None);
}

#[test]
fn collected_sessions_get_ascending_ids() {
    let raws = vec![raw_session(Some("a.exe")), raw_session(None), raw_session(Some("c.exe"))];
    let out = collect_sessions(raws);
    assert_eq!(out.len(), 2);
    assert_eq!((out[0].session_id, out[0].source.as_str()), (0, "a.exe"));
    assert_eq!((out[1].session_id, out[1].source.as_str()), (1, "c.exe"));
    assert!(out[1].session.playback.is_some());
    assert!(collect_sessions(Vec::new()).is_empty());
}
