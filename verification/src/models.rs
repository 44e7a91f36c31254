//! Domain model: tracks and their metadata, playback snapshots, history
//! entries and scrobble events.
//!
//! Identity of every entity is its `id` string. Times are unix seconds;
//! durations are whole seconds.

use vstd::prelude::*;

verus! {

/// A genre tag; the tag's id is its display name.
#[derive(Debug)]
pub struct Tag {
    pub id: String,
}

impl Clone for Tag {
    fn clone(&self) -> (r: Self)
        ensures
            r == *self,
    {
        Tag { id: self.id.clone() }
    }
}

/// A recording artist.
#[derive(Debug)]
pub struct Artist {
    pub id: String,
    pub name: String,
}

impl Clone for Artist {
    fn clone(&self) -> (r: Self)
        ensures
            r == *self,
    {
        Artist { id: self.id.clone(), name: self.name.clone() }
    }
}

/// An album, with the cover image URL picked at the provider boundary.
#[derive(Debug)]
pub struct Album {
    pub id: String,
    pub title: String,
    pub cover: String,
}

impl Clone for Album {
    fn clone(&self) -> (r: Self)
        ensures
            r == *self,
    {
        Album { id: self.id.clone(), title: self.title.clone(), cover: self.cover.clone() }
    }
}

/// The track row as the entity store keeps it.
#[derive(Debug)]
pub struct Track {
    pub id: String,
    pub title: String,
    pub duration_secs: u64,
    pub isrc: String,
}

impl Clone for Track {
    fn clone(&self) -> (r: Self)
        ensures
            r == *self,
    {
        Track {
            id: self.id.clone(),
            title: self.title.clone(),
            duration_secs: self.duration_secs,
            isrc: self.isrc.clone(),
        }
    }
}

/// Full provider metadata for a track, as one poll or history entry carries it.
#[derive(Debug)]
pub struct TrackInfo {
    pub id: String,
    pub title: String,
    pub album: Album,
    pub artists: Vec<Artist>,
    pub duration_secs: u64,
    pub tags: Vec<Tag>,
    pub isrc: String,
    pub cover: String,
}

/// Mathematical value of a [`TrackInfo`]: the vectors become sequences.
#[verifier::ext_equal]
pub struct TrackInfoView {
    pub id: String,
    pub title: String,
    pub album: Album,
    pub artists: Seq<Artist>,
    pub duration_secs: u64,
    pub tags: Seq<Tag>,
    pub isrc: String,
    pub cover: String,
}

impl View for TrackInfo {
    type V = TrackInfoView;

    open spec fn view(&self) -> TrackInfoView {
        TrackInfoView {
            id: self.id,
            title: self.title,
            album: self.album,
            artists: self.artists@,
            duration_secs: self.duration_secs,
            tags: self.tags@,
            isrc: self.isrc,
            cover: self.cover,
        }
    }
}

impl Clone for TrackInfo {
    fn clone(&self) -> (r: Self)
        ensures
            r@ == self@,
    {
        let r = TrackInfo {
            id: self.id.clone(),
            title: self.title.clone(),
            album: self.album.clone(),
            artists: clone_artists(&self.artists),
            duration_secs: self.duration_secs,
            tags: clone_tags(&self.tags),
            isrc: self.isrc.clone(),
            cover: self.cover.clone(),
        };
        proof {
            assert(r@ =~= self@);
        }
        r
    }
}

fn clone_artists(v: &Vec<Artist>) -> (r: Vec<Artist>)
    ensures
        r@ == v@,
{
    let mut r: Vec<Artist> = Vec::new();
    let mut i: usize = 0;
    while i < v.len()
        invariant
            i <= v.len(),
            r@ == v@.take(i as int),
        decreases v.len() - i,
    {
        r.push(v[i].clone());
        i = i + 1;
        proof {
            assert(r@ =~= v@.take(i as int));
        }
    }
    proof {
        assert(v@.take(v@.len() as int) =~= v@);
    }
    r
}

fn clone_tags(v: &Vec<Tag>) -> (r: Vec<Tag>)
    ensures
        r@ == v@,
{
    let mut r: Vec<Tag> = Vec::new();
    let mut i: usize = 0;
    while i < v.len()
        invariant
            i <= v.len(),
            r@ == v@.take(i as int),
        decreases v.len() - i,
    {
        r.push(v[i].clone());
        i = i + 1;
        proof {
            assert(r@ =~= v@.take(i as int));
        }
    }
    proof {
        assert(v@.take(v@.len() as int) =~= v@);
    }
    r
}

/// One poll's view of what is currently playing. `timestamp` is the unix
/// second at which this listening session was first observed to start.
#[derive(Debug)]
pub struct CurrentPlayingTrack {
    pub track: TrackInfo,
    pub timestamp: u64,
    pub progress_secs: u64,
    pub scrobbled: bool,
}

#[verifier::ext_equal]
pub struct CurrentPlayingTrackView {
    pub track: TrackInfoView,
    pub timestamp: u64,
    pub progress_secs: u64,
    pub scrobbled: bool,
}

impl View for CurrentPlayingTrack {
    type V = CurrentPlayingTrackView;

    open spec fn view(&self) -> CurrentPlayingTrackView {
        CurrentPlayingTrackView {
            track: self.track@,
            timestamp: self.timestamp,
            progress_secs: self.progress_secs,
            scrobbled: self.scrobbled,
        }
    }
}

impl Clone for CurrentPlayingTrack {
    fn clone(&self) -> (r: Self)
        ensures
            r@ == self@,
    {
        let r = CurrentPlayingTrack {
            track: self.track.clone(),
            timestamp: self.timestamp,
            progress_secs: self.progress_secs,
            scrobbled: self.scrobbled,
        };
        proof {
            assert(r@ =~= self@);
        }
        r
    }
}

/// An already-completed play reported by the provider's history endpoint.
#[derive(Debug)]
pub struct HistoryPlayedTrack {
    pub track: TrackInfo,
    pub played_at: u64,
}

#[verifier::ext_equal]
pub struct HistoryPlayedTrackView {
    pub track: TrackInfoView,
    pub played_at: u64,
}

impl View for HistoryPlayedTrack {
    type V = HistoryPlayedTrackView;

    open spec fn view(&self) -> HistoryPlayedTrackView {
        HistoryPlayedTrackView { track: self.track@, played_at: self.played_at }
    }
}

impl Clone for HistoryPlayedTrack {
    fn clone(&self) -> (r: Self)
        ensures
            r@ == self@,
    {
        let r = HistoryPlayedTrack { track: self.track.clone(), played_at: self.played_at };
        proof {
            assert(r@ =~= self@);
        }
        r
    }
}

/// One verified play, ready for ingestion. `timestamp` is the start of the
/// counted listening session, not the decision time.
#[derive(Debug)]
pub struct ScrobbleInfo {
    pub timestamp: u64,
    pub duration_secs: u64,
    pub track: TrackInfo,
}

#[verifier::ext_equal]
pub struct ScrobbleInfoView {
    pub timestamp: u64,
    pub duration_secs: u64,
    pub track: TrackInfoView,
}

impl View for ScrobbleInfo {
    type V = ScrobbleInfoView;

    open spec fn view(&self) -> ScrobbleInfoView {
        ScrobbleInfoView {
            timestamp: self.timestamp,
            duration_secs: self.duration_secs,
            track: self.track@,
        }
    }
}

impl Clone for ScrobbleInfo {
    fn clone(&self) -> (r: Self)
        ensures
            r@ == self@,
    {
        let r = ScrobbleInfo {
            timestamp: self.timestamp,
            duration_secs: self.duration_secs,
            track: self.track.clone(),
        };
        proof {
            assert(r@ =~= self@);
        }
        r
    }
}

} // verus!
