//! The scrobble decision state machine: a pure function from the freshly
//! polled snapshot, the cached snapshot and the current time to a verdict.
//!
//! Two snapshots belong to the same listening session iff both carry a track
//! and the track ids match. A session qualifies as a scrobble once either
//! half the track's length or [`SCROBBLE_LISTENING_MIN_SECS`] real seconds
//! have elapsed since the session's earliest known start, whichever comes
//! first.

use vstd::prelude::*;

use crate::clock::now_unix_secs;
use crate::models::{
    CurrentPlayingTrack, CurrentPlayingTrackView, ScrobbleInfo, ScrobbleInfoView,
};

verus! {

/// Fixed policy constant: a session also qualifies once this many real
/// seconds have elapsed, regardless of track length.
pub const SCROBBLE_LISTENING_MIN_SECS: u64 = 180;

/// The verdict one poll cycle produces.
pub enum ScrobblerResult {
    /// The session qualified; the payload is the event to ingest.
    Scrobble(ScrobbleInfo),
    /// First (or changed) observation of a session: cache it for later.
    Cache,
    /// Nothing is playing; the caller clears its cache.
    NotPlaying,
    /// The cached session was already counted; nothing to do.
    AlreadyScrobbled,
    /// Same session, threshold not yet reached; keep the cache and retry.
    NotReadyForScrobble,
}

/// A verdict without its payload, for stating the decision rules.
pub enum VerdictKind {
    Scrobble,
    Cache,
    NotPlaying,
    AlreadyScrobbled,
    NotReady,
}

pub open spec fn verdict_kind_of(r: ScrobblerResult) -> VerdictKind {
    match r {
        ScrobblerResult::Scrobble(_) => VerdictKind::Scrobble,
        ScrobblerResult::Cache => VerdictKind::Cache,
        ScrobblerResult::NotPlaying => VerdictKind::NotPlaying,
        ScrobblerResult::AlreadyScrobbled => VerdictKind::AlreadyScrobbled,
        ScrobblerResult::NotReadyForScrobble => VerdictKind::NotReady,
    }
}

/// Two snapshots report the same listening session iff the track ids match.
pub open spec fn same_session(c: CurrentPlayingTrackView, k: CurrentPlayingTrackView) -> bool {
    c.track.id@ == k.track.id@
}

/// Seconds elapsed since `start`; a clock running behind the session start
/// clamps to zero rather than failing.
pub open spec fn elapsed_secs(now: u64, start: u64) -> u64 {
    if now >= start {
        (now - start) as u64
    } else {
        0
    }
}

/// The qualification threshold: half the track played, or the fixed minimum
/// of real seconds, whichever comes first.
pub open spec fn qualifies(duration_secs: u64, elapsed: u64) -> bool {
    elapsed >= duration_secs / 2 || elapsed >= SCROBBLE_LISTENING_MIN_SECS
}

/// The event emitted for a qualifying same-session pair: the session's
/// earliest known start comes from the cache, the counted length is the
/// track's full duration.
pub open spec fn scrobble_event(
    c: CurrentPlayingTrackView,
    k: CurrentPlayingTrackView,
) -> ScrobbleInfoView {
    ScrobbleInfoView {
        timestamp: k.timestamp,
        duration_secs: c.track.duration_secs,
        track: c.track,
    }
}

pub open spec fn opt_view(o: Option<CurrentPlayingTrack>) -> Option<CurrentPlayingTrackView> {
    match o {
        Some(c) => Some(c@),
        None => None,
    }
}

/// The decision rules, in order: nothing playing wins; a bare cache misses;
/// an already-counted session stays counted; a changed session re-caches;
/// otherwise the threshold decides.
pub open spec fn decide(
    current: Option<CurrentPlayingTrackView>,
    cached: Option<CurrentPlayingTrackView>,
    now: u64,
) -> VerdictKind {
    match (current, cached) {
        (Option::None, _) => VerdictKind::NotPlaying,
        (Option::Some(_), Option::None) => VerdictKind::Cache,
        (Option::Some(c), Option::Some(k)) => {
            if !same_session(c, k) {
                VerdictKind::Cache
            } else if k.scrobbled {
                VerdictKind::AlreadyScrobbled
            } else if qualifies(c.track.duration_secs, elapsed_secs(now, k.timestamp)) {
                VerdictKind::Scrobble
            } else {
                VerdictKind::NotReady
            }
        },
    }
}

pub struct Scrobbler;

impl Scrobbler {
    /// Decide one poll cycle, with the current time handed in.
    pub fn calculate_scrobble(
        current: &Option<CurrentPlayingTrack>,
        cache: &Option<CurrentPlayingTrack>,
        now: u64,
    ) -> (r: ScrobblerResult)
        ensures
            verdict_kind_of(r) == decide(opt_view(*current), opt_view(*cache), now),
            r matches ScrobblerResult::Scrobble(ev) ==> {
                &&& opt_view(*current) matches Some(c)
                &&& opt_view(*cache) matches Some(k)
                &&& ev@ == scrobble_event(c, k)
            },
    {
        match (current, cache) {
            (Some(c), Some(k)) => {
                if !(c.track.id == k.track.id) {
                    return ScrobblerResult::Cache;
                }
                if k.scrobbled {
                    return ScrobblerResult::AlreadyScrobbled;
                }
                // same session: the earliest known start is the cached one
                let timestamp = k.timestamp;
                let elapsed = if now >= timestamp {
                    now - timestamp
                } else {
                    0
                };
                let duration = c.track.duration_secs;
                if elapsed >= duration / 2 || elapsed >= SCROBBLE_LISTENING_MIN_SECS {
                    let ev = ScrobbleInfo {
                        timestamp,
                        duration_secs: duration,
                        track: c.track.clone(),
                    };
                    proof {
                        assert(ev@ =~= scrobble_event(c@, k@));
                    }
                    ScrobblerResult::Scrobble(ev)
                } else {
                    ScrobblerResult::NotReadyForScrobble
                }
            },
            (Some(_), None) => ScrobblerResult::Cache,
            (None, _) => ScrobblerResult::NotPlaying,
        }
    }

    /// Decide one poll cycle against the wall clock. The time read is some
    /// unix second; every other aspect of the verdict is pinned by `decide`.
    pub fn calculate_scrobble_now(
        current: &Option<CurrentPlayingTrack>,
        cache: &Option<CurrentPlayingTrack>,
    ) -> (r: ScrobblerResult)
        ensures
            exists|now: u64|
                verdict_kind_of(r) == #[trigger] decide(opt_view(*current), opt_view(*cache), now),
            r matches ScrobblerResult::Scrobble(ev) ==> {
                &&& opt_view(*current) matches Some(c)
                &&& opt_view(*cache) matches Some(k)
                &&& ev@ == scrobble_event(c, k)
            },
    {
        let now = now_unix_secs();
        let r = Scrobbler::calculate_scrobble(current, cache, now);
        proof {
            assert(verdict_kind_of(r) == decide(opt_view(*current), opt_view(*cache), now));
        }
        r
    }
}

/// Whenever nothing is playing, the verdict is `NotPlaying`, regardless of
/// what is cached.
pub proof fn lemma_nothing_playing(cached: Option<CurrentPlayingTrackView>, now: u64)
    ensures
        decide(None, cached, now) is NotPlaying,
{
}

/// A playing track with an empty cache is always cached: the first
/// observation of a session never scrobbles.
pub proof fn lemma_first_observation_cached(c: CurrentPlayingTrackView, now: u64)
    ensures
        decide(Some(c), None, now) is Cache,
{
}

/// A same-session pair whose cache is already marked scrobbled yields
/// `AlreadyScrobbled`: a counted session is never counted twice.
pub proof fn lemma_already_scrobbled(
    c: CurrentPlayingTrackView,
    k: CurrentPlayingTrackView,
    now: u64,
)
    requires
        same_session(c, k),
        k.scrobbled,
    ensures
        decide(Some(c), Some(k), now) is AlreadyScrobbled,
{
}

/// The threshold rule for an uncounted same-session pair with track duration
/// `D` and elapsed time `E` from the earliest known start: below both `D / 2`
/// and the fixed minimum the session is not ready; at or past either bound it
/// scrobbles, with the full duration `D` and the session's start time.
pub proof fn lemma_threshold(c: CurrentPlayingTrackView, k: CurrentPlayingTrackView, now: u64)
    requires
        same_session(c, k),
        !k.scrobbled,
    ensures
        ({
            let e = elapsed_secs(now, k.timestamp);
            let d = c.track.duration_secs;
            &&& (e < d / 2 && e < SCROBBLE_LISTENING_MIN_SECS) ==> decide(
                Some(c),
                Some(k),
                now,
            ) is NotReady
            &&& (e >= d / 2 || e >= SCROBBLE_LISTENING_MIN_SECS) ==> decide(
                Some(c),
                Some(k),
                now,
            ) is Scrobble
            &&& scrobble_event(c, k).duration_secs == d
            &&& scrobble_event(c, k).timestamp == k.timestamp
        }),
{
}

/// A session change before the cached session ever qualified re-caches the
/// new session; the old one is discarded silently.
pub proof fn lemma_session_change(c: CurrentPlayingTrackView, k: CurrentPlayingTrackView, now: u64)
    requires
        !same_session(c, k),
    ensures
        decide(Some(c), Some(k), now) is Cache,
{
}

} // verus!
