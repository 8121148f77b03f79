use vstd::prelude::*;
use crate::convert::{
    convert_media_info, convert_playback_info, convert_timeline_info, media_convertible,
    media_matches, playback_convertible, playback_of, timeline_convertible, timeline_of,
    RawMediaProperties, RawPlaybackInfo, RawTimelineInfo,
};
use crate::model::{CurrentSession, MediaModel, PlaybackModel, SessionModel, TimelineModel};

verus! {

/// Everything the broker reported about one session: its source, the three
/// property bundles (`None` where the query for the bundle failed) and the
/// thumbnail, `None` where there was none or it could not be read.
#[derive(Debug, Clone, PartialEq, Eq)]
pub struct RawSession {
    pub source: Option<String>,
    pub playback: Option<RawPlaybackInfo>,
    pub timeline: Option<RawTimelineInfo>,
    pub media: Option<RawMediaProperties>,
    pub thumbnail: Option<Vec<u8>>,
}

/// The playback state of a snapshot: absent when the bundle is missing or
/// does not convert.
pub open spec fn optional_playback(raw: Option<RawPlaybackInfo>) -> Option<PlaybackModel> {
    match raw {
        Some(p) => if playback_convertible(p) {
            Some(playback_of(p))
        } else {
            None
        },
        None => None,
    }
}

/// The timeline of a snapshot: absent when the bundle is missing or does not
/// convert.
pub open spec fn optional_timeline(raw: Option<RawTimelineInfo>) -> Option<TimelineModel> {
    match raw {
        Some(t) => if timeline_convertible(t) {
            Some(timeline_of(t))
        } else {
            None
        },
        None => None,
    }
}

/// `m` is the media metadata of a snapshot: present exactly when the bundle
/// is there and converts.
pub open spec fn optional_media_matches(m: Option<MediaModel>, raw: Option<RawMediaProperties>) -> bool {
    match raw {
        Some(r) => if media_convertible(r) {
            m is Some && media_matches(m->Some_0, r)
        } else {
            m is None
        },
        None => m is None,
    }
}

/// `s` is the snapshot of a session with a source, under the given id.
pub open spec fn session_matches(s: CurrentSession, raw: RawSession, id: nat) -> bool {
    &&& raw.source is Some
    &&& s.source == raw.source->Some_0
    &&& s.session.source == raw.source->Some_0
    &&& s.session.playback == optional_playback(raw.playback)
    &&& s.session.timeline == optional_timeline(raw.timeline)
    &&& optional_media_matches(s.session.media, raw.media)
    &&& s.image == raw.thumbnail
    &&& s.session_id == id
}

/// The sessions that have a source, in their order.
pub open spec fn sourced(raws: Seq<RawSession>) -> Seq<RawSession>
    decreases raws.len(),
{
    if raws.len() == 0 {
        Seq::empty()
    } else {
        let before = sourced(raws.drop_last());
        if raws.last().source is Some {
            before.push(raws.last())
        } else {
            before
        }
    }
}

/// Builds the snapshot of one session. Each sub-model that fails to convert
/// is left absent; only a missing source gives no snapshot at all.
pub fn build_session(session_id: usize, raw: RawSession) -> (r: Option<CurrentSession>)
    ensures
        r is Some <==> raw.source is Some,
        r is Some ==> session_matches(r->Some_0, raw, session_id as nat),
{
    let source = match raw.source {
        Some(s) => s,
        None => {
            return None;
        },
    };
    let playback = match &raw.playback {
        Some(p) => match convert_playback_info(p) {
            Ok(m) => Some(m),
            Err(_) => None,
        },
        None => None,
    };
    let timeline = match &raw.timeline {
        Some(t) => match convert_timeline_info(t) {
            Ok(m) => Some(m),
            Err(_) => None,
        },
        None => None,
    };
    let media = match &raw.media {
        Some(m) => match convert_media_info(m) {
            Ok(v) => Some(v),
            Err(_) => None,
        },
        None => None,
    };
    let session = SessionModel { playback, timeline, media, source: source.clone() };
    Some(CurrentSession { source, session, image: raw.thumbnail, session_id })
}

/// Snapshots of the sessions the broker listed, for initial population:
/// sessions without a source are skipped, the others keep their order and get
/// the ids 0, 1, 2, ... in that order.
pub fn collect_sessions(raws: Vec<RawSession>) -> (r: Vec<CurrentSession>)
    ensures
        r@.len() == sourced(raws@).len(),
        forall|k: int|
            0 <= k < r@.len() ==> #[trigger] session_matches(r@[k], sourced(raws@)[k], k as nat),
{
    let ghost all = raws@;
    let n = raws.len();
    let mut rest = raws;
    let mut out: Vec<CurrentSession> = Vec::new();
    let mut i: usize = 0;
    while i < n
        invariant
            n == all.len(),
            i <= n,
            rest@ == all.subrange(i as int, n as int),
            out@.len() == sourced(all.subrange(0, i as int)).len(),
            out@.len() <= i,
            forall|k: int|
                0 <= k < out@.len() ==> #[trigger] session_matches(
                    out@[k],
                    sourced(all.subrange(0, i as int))[k],
                    k as nat,
                ),
        decreases n - i,
    {
        let raw = rest.remove(0);
        assert(raw == all[i as int]);
        assert(all.subrange(0, i + 1).drop_last() =~= all.subrange(0, i as int));
        assert(all.subrange(0, i + 1).last() == all[i as int]);
        let id = out.len();
        match build_session(id, raw) {
            Some(s) => {
                out.push(s);
            },
            None => {},
        }
        assert(rest@ =~= all.subrange(i + 1, n as int));
        i = i + 1;
    }
    assert(all.subrange(0, n as int) =~= all);
    out
}

} // verus!
