//! Normalization of upstream playback observations into outward events, and
//! the adaptive scheduling of the next poll.

use vstd::prelude::*;
use vstd::string::StringExecFns;

use crate::error::ServiceError;

verus! {

/// One observation of the upstream "now playing" endpoint, already decoded
/// into plain values: the track's name, every listed artist name, every
/// album image URL in the order the upstream lists them, and the playback
/// position in whole milliseconds.
pub struct PlaybackSnapshot {
    /// Name of the current track.
    pub title: String,
    /// Names of all listed artists, in upstream order.
    pub artists: Vec<String>,
    /// URLs of the album's images, in upstream order; may be empty.
    pub album_images: Vec<String>,
    /// Position within the track, in milliseconds.
    pub progress_ms: u64,
    /// Total length of the track, in milliseconds.
    pub duration_ms: u64,
    /// Whether playback is currently running.
    pub is_playing: bool,
}

/// The normalized record pushed to a subscriber for one successful
/// observation.
pub struct SongResponse {
    /// Name of the current track.
    pub title: String,
    /// All artist names joined by a comma and a space.
    pub artist: String,
    /// URL of the album's first listed image.
    pub album_cover: String,
    /// Position within the track, in milliseconds.
    pub progress_ms: u64,
    /// Total length of the track, in milliseconds.
    pub total_ms: u64,
    /// Whether playback is currently running.
    pub is_playing: bool,
}

/// One event on a subscription's feed: a normalized observation, or a typed
/// failure the client can render while the connection stays open. There are
/// no other variants, and events are emitted strictly in temporal order.
pub enum PlaybackEvent {
    Success(SongResponse),
    Failure(String),
}

/// Fixed delay, in milliseconds, before the next poll after an upstream
/// failure.
pub const FAILURE_DELAY_MS: u64 = 10000;

/// Ceiling, in milliseconds, on the delay before the next poll.
pub const MAX_DELAY_MS: u64 = 20000;

/// Slack, in milliseconds, added past a track's expected end so the next poll
/// lands just after the track change.
pub const TRACK_END_SLACK_MS: u64 = 200;

/// The delay before the next poll, given how far playback has progressed
/// through the current track: long enough to land just after the track is
/// expected to end, capped so long-remaining tracks are still re-checked
/// every twenty seconds, and never negative even when the reported progress
/// has run past the reported duration.
pub open spec fn spec_delay(duration_ms: u64, progress_ms: u64) -> int {
    let remaining = duration_ms - progress_ms;
    if remaining < MAX_DELAY_MS {
        if remaining + TRACK_END_SLACK_MS >= 0 {
            remaining + TRACK_END_SLACK_MS
        } else {
            0
        }
    } else {
        MAX_DELAY_MS as int
    }
}

/// Computes the delay before the next poll from the current track's duration
/// and progress, both in milliseconds.
pub fn compute_delay(duration_ms: u64, progress_ms: u64) -> (delay: u64)
    ensures
        delay == spec_delay(duration_ms, progress_ms),
        delay <= MAX_DELAY_MS + TRACK_END_SLACK_MS,
{
    if progress_ms <= duration_ms {
        let remaining = duration_ms - progress_ms;
        if remaining < MAX_DELAY_MS {
            remaining + TRACK_END_SLACK_MS
        } else {
            MAX_DELAY_MS
        }
    } else {
        let overshoot = progress_ms - duration_ms;
        if overshoot < TRACK_END_SLACK_MS {
            TRACK_END_SLACK_MS - overshoot
        } else {
            0
        }
    }
}

/// The character sequences of a sequence of strings.
pub open spec fn artist_views(names: Seq<String>) -> Seq<Seq<char>> {
    names.map_values(|s: String| s@)
}

/// The names joined by a comma and a space: `["A", "B", "C"]` becomes
/// `"A, B, C"`, a single name stands alone, and no names give the empty
/// string.
pub open spec fn spec_join_artists(names: Seq<Seq<char>>) -> Seq<char>
    decreases names.len(),
{
    if names.len() == 0 {
        Seq::empty()
    } else if names.len() == 1 {
        names[0]
    } else {
        spec_join_artists(names.drop_last()) + ", "@ + names.last()
    }
}

/// Joins all artist names with a comma and a space, in the given order.
pub fn join_artists(names: &Vec<String>) -> (r: String)
    ensures
        r@ == spec_join_artists(artist_views(names@)),
{
    let ghost views = artist_views(names@);
    let mut out = String::new();
    let mut i: usize = 0;
    while i < names.len()
        invariant
            i <= names.len(),
            views == artist_views(names@),
            out@ == spec_join_artists(views.take(i as int)),
        decreases names.len() - i,
    {
        if i > 0 {
            out.append(", ");
        }
        out.append(names[i].as_str());
        proof {
            assert(views.take(i + 1).drop_last() =~= views.take(i as int));
            assert(views.take(i + 1).last() == views[i as int]);
            if i == 0 {
                assert(out@ =~= spec_join_artists(views.take(1)));
            }
        }
        i = i + 1;
    }
    proof {
        assert(views.take(names@.len() as int) =~= views);
    }
    out
}

/// How a successful observation is normalized: the title and playback flags
/// pass through, the artists are joined by a comma and a space, and the album
/// cover is the first listed album image.
pub open spec fn song_matches(song: SongResponse, snap: PlaybackSnapshot) -> bool {
    &&& song.title == snap.title
    &&& song.artist@ == spec_join_artists(artist_views(snap.artists@))
    &&& song.album_cover == snap.album_images[0]
    &&& song.progress_ms == snap.progress_ms
    &&& song.total_ms == snap.duration_ms
    &&& song.is_playing == snap.is_playing
}

/// Normalizes one upstream observation into the record pushed to the
/// subscriber. An observation whose album lists no image cannot be
/// normalized and is reported as a malformed snapshot instead of crashing.
pub fn build_song_response(snap: PlaybackSnapshot) -> (r: Result<SongResponse, ServiceError>)
    ensures
        snap.album_images@.len() == 0 ==> (r matches Err(e) && e == ServiceError::MalformedSnapshot),
        snap.album_images@.len() > 0 ==> (r matches Ok(song) && song_matches(song, snap)),
{
    if snap.album_images.len() == 0 {
        return Err(ServiceError::MalformedSnapshot);
    }
    let artist = join_artists(&snap.artists);
    let album_cover = snap.album_images[0].clone();
    Ok(
        SongResponse {
            title: snap.title,
            artist,
            album_cover,
            progress_ms: snap.progress_ms,
            total_ms: snap.duration_ms,
            is_playing: snap.is_playing,
        },
    )
}

} // verus!
