//! The entity store: normalized tables for tracks, albums, artists and tags,
//! their link tables, and the append-only scrobble log.
//!
//! Every insert is insert-if-absent: a row is created at most once per id
//! (or per id pair, for links) and never modified in place. The store's
//! well-formedness invariant says exactly that no table holds two rows with
//! the same key.

use vstd::prelude::*;
use vstd::string::StringExecFns;

use crate::models::{Album, Artist, Tag, Track};

verus! {

/// One appended scrobble record: the unit the log keeps per verified play.
#[derive(Debug)]
pub struct ScrobbleRecord {
    pub timestamp: u64,
    pub duration_secs: u64,
    pub track_id: String,
    pub origin: String,
}

/// Mathematical value of a [`ScrobbleRecord`], with the strings as
/// character sequences.
#[verifier::ext_equal]
pub struct ScrobbleRecordView {
    pub timestamp: u64,
    pub duration_secs: u64,
    pub track_id: Seq<char>,
    pub origin: Seq<char>,
}

impl View for ScrobbleRecord {
    type V = ScrobbleRecordView;

    open spec fn view(&self) -> ScrobbleRecordView {
        ScrobbleRecordView {
            timestamp: self.timestamp,
            duration_secs: self.duration_secs,
            track_id: self.track_id@,
            origin: self.origin@,
        }
    }
}

/// Mathematical value of the whole store: one sequence per table.
#[verifier::ext_equal]
pub struct StoreView {
    pub tracks: Seq<Track>,
    pub albums: Seq<Album>,
    pub artists: Seq<Artist>,
    pub tags: Seq<Tag>,
    pub scrobbles: Seq<ScrobbleRecordView>,
    pub track_artists: Seq<(String, String)>,
    pub track_albums: Seq<(String, String)>,
    pub track_tags: Seq<(String, String)>,
    pub album_artists: Seq<(String, String)>,
}

pub open spec fn has_track_id(rows: Seq<Track>, id: Seq<char>) -> bool {
    exists|i: int| 0 <= i < rows.len() && rows[i].id@ == id
}

pub open spec fn has_album_id(rows: Seq<Album>, id: Seq<char>) -> bool {
    exists|i: int| 0 <= i < rows.len() && rows[i].id@ == id
}

pub open spec fn has_artist_id(rows: Seq<Artist>, id: Seq<char>) -> bool {
    exists|i: int| 0 <= i < rows.len() && rows[i].id@ == id
}

pub open spec fn has_tag_id(rows: Seq<Tag>, id: Seq<char>) -> bool {
    exists|i: int| 0 <= i < rows.len() && rows[i].id@ == id
}

pub open spec fn has_pair(rows: Seq<(String, String)>, left: Seq<char>, right: Seq<char>) -> bool {
    exists|i: int| 0 <= i < rows.len() && rows[i].0@ == left && rows[i].1@ == right
}

/// Insert-if-absent on each table, as a value.
pub open spec fn upsert_track_s(rows: Seq<Track>, t: Track) -> Seq<Track> {
    if has_track_id(rows, t.id@) {
        rows
    } else {
        rows.push(t)
    }
}

pub open spec fn upsert_album_s(rows: Seq<Album>, a: Album) -> Seq<Album> {
    if has_album_id(rows, a.id@) {
        rows
    } else {
        rows.push(a)
    }
}

pub open spec fn upsert_artist_s(rows: Seq<Artist>, a: Artist) -> Seq<Artist> {
    if has_artist_id(rows, a.id@) {
        rows
    } else {
        rows.push(a)
    }
}

pub open spec fn upsert_tag_s(rows: Seq<Tag>, t: Tag) -> Seq<Tag> {
    if has_tag_id(rows, t.id@) {
        rows
    } else {
        rows.push(t)
    }
}

pub open spec fn upsert_pair_s(rows: Seq<(String, String)>, p: (String, String)) -> Seq<
    (String, String),
> {
    if has_pair(rows, p.0@, p.1@) {
        rows
    } else {
        rows.push(p)
    }
}

pub open spec fn pairs_unique(rows: Seq<(String, String)>) -> bool {
    forall|i: int, j: int|
        0 <= i < j < rows.len() ==> !(rows[i].0@ == rows[j].0@ && rows[i].1@ == rows[j].1@)
}

/// No table holds two rows with the same key.
pub open spec fn store_wf(s: StoreView) -> bool {
    &&& forall|i: int, j: int|
        0 <= i < j < s.tracks.len() ==> s.tracks[i].id@ != s.tracks[j].id@
    &&& forall|i: int, j: int|
        0 <= i < j < s.albums.len() ==> s.albums[i].id@ != s.albums[j].id@
    &&& forall|i: int, j: int|
        0 <= i < j < s.artists.len() ==> s.artists[i].id@ != s.artists[j].id@
    &&& forall|i: int, j: int| 0 <= i < j < s.tags.len() ==> s.tags[i].id@ != s.tags[j].id@
    &&& pairs_unique(s.track_artists)
    &&& pairs_unique(s.track_albums)
    &&& pairs_unique(s.track_tags)
    &&& pairs_unique(s.album_artists)
}

/// The in-memory entity store the engine writes to.
pub struct Repository {
    tracks: Vec<Track>,
    albums: Vec<Album>,
    artists: Vec<Artist>,
    tags: Vec<Tag>,
    scrobbles: Vec<ScrobbleRecord>,
    track_artists: Vec<(String, String)>,
    track_albums: Vec<(String, String)>,
    track_tags: Vec<(String, String)>,
    album_artists: Vec<(String, String)>,
}

impl View for Repository {
    type V = StoreView;

    closed spec fn view(&self) -> StoreView {
        StoreView {
            tracks: self.tracks@,
            albums: self.albums@,
            artists: self.artists@,
            tags: self.tags@,
            scrobbles: self.scrobbles@.map_values(|r: ScrobbleRecord| r@),
            track_artists: self.track_artists@,
            track_albums: self.track_albums@,
            track_tags: self.track_tags@,
            album_artists: self.album_artists@,
        }
    }
}

impl Repository {
    /// A fresh store with every table empty.
    pub fn new() -> (r: Repository)
        ensures
            r@.tracks.len() == 0,
            r@.albums.len() == 0,
            r@.artists.len() == 0,
            r@.tags.len() == 0,
            r@.scrobbles.len() == 0,
            r@.track_artists.len() == 0,
            r@.track_albums.len() == 0,
            r@.track_tags.len() == 0,
            r@.album_artists.len() == 0,
            store_wf(r@),
    {
        Repository {
            tracks: Vec::new(),
            albums: Vec::new(),
            artists: Vec::new(),
            tags: Vec::new(),
            scrobbles: Vec::new(),
            track_artists: Vec::new(),
            track_albums: Vec::new(),
            track_tags: Vec::new(),
            album_artists: Vec::new(),
        }
    }

    /// The row index holding `id`, if the track is known.
    fn find_track_index(&self, id: &String) -> (r: Option<usize>)
        ensures
            match r {
                Some(i) => i < self@.tracks.len() && self@.tracks[i as int].id@ == id@,
                None => !has_track_id(self@.tracks, id@),
            },
    {
        let mut i: usize = 0;
        while i < self.tracks.len()
            invariant
                i <= self.tracks.len(),
                forall|j: int| 0 <= j < i ==> self@.tracks[j].id@ != id@,
            decreases self.tracks.len() - i,
        {
            if self.tracks[i].id == *id {
                return Some(i);
            }
            i = i + 1;
        }
        None
    }

    /// Whether a track row with this id exists.
    pub fn has_track(&self, id: &String) -> (b: bool)
        ensures
            b == has_track_id(self@.tracks, id@),
    {
        self.find_track_index(id).is_some()
    }

    /// The track row with this id, if any.
    pub fn get_track_by_id(&self, id: &String) -> (r: Option<&Track>)
        ensures
            match r {
                Some(t) => has_track_id(self@.tracks, id@) && t.id@ == id@
                    && self@.tracks.contains(*t),
                None => !has_track_id(self@.tracks, id@),
            },
    {
        match self.find_track_index(id) {
            Some(i) => {
                let t = &self.tracks[i];
                proof {
                    assert(self@.tracks[i as int] == *t);
                }
                Some(t)
            },
            None => None,
        }
    }

    /// Insert the track row unless a row with its id exists.
    pub fn insert_track(&mut self, track: Track)
        requires
            store_wf(old(self)@),
        ensures
            store_wf(final(self)@),
            final(self)@ == (StoreView {
                tracks: upsert_track_s(old(self)@.tracks, track),
                ..old(self)@
            }),
    {
        let known = self.has_track(&track.id);
        if !known {
            self.tracks.push(track);
        }
        proof {
            assert(self@ =~= (StoreView {
                tracks: upsert_track_s(old(self)@.tracks, track),
                ..old(self)@
            }));
        }
    }

    /// Insert the album row unless a row with its id exists.
    pub fn insert_album(&mut self, album: Album)
        requires
            store_wf(old(self)@),
        ensures
            store_wf(final(self)@),
            final(self)@ == (StoreView {
                albums: upsert_album_s(old(self)@.albums, album),
                ..old(self)@
            }),
    {
        let known = contains_album(&self.albums, &album.id);
        if !known {
            self.albums.push(album);
        }
        proof {
            assert(self@ =~= (StoreView {
                albums: upsert_album_s(old(self)@.albums, album),
                ..old(self)@
            }));
        }
    }

    /// Insert the artist row unless a row with its id exists.
    pub fn insert_artist(&mut self, artist: Artist)
        requires
            store_wf(old(self)@),
        ensures
            store_wf(final(self)@),
            final(self)@ == (StoreView {
                artists: upsert_artist_s(old(self)@.artists, artist),
                ..old(self)@
            }),
    {
        let known = contains_artist(&self.artists, &artist.id);
        if !known {
            self.artists.push(artist);
        }
        proof {
            assert(self@ =~= (StoreView {
                artists: upsert_artist_s(old(self)@.artists, artist),
                ..old(self)@
            }));
        }
    }

    /// Insert the tag row unless a row with its id exists.
    pub fn insert_tag(&mut self, tag: Tag)
        requires
            store_wf(old(self)@),
        ensures
            store_wf(final(self)@),
            final(self)@ == (StoreView { tags: upsert_tag_s(old(self)@.tags, tag), ..old(self)@ }),
    {
        let known = contains_tag(&self.tags, &tag.id);
        if !known {
            self.tags.push(tag);
        }
        proof {
            assert(self@ =~= (StoreView {
                tags: upsert_tag_s(old(self)@.tags, tag),
                ..old(self)@
            }));
        }
    }

    /// Append one scrobble record to the log. The log is append-only and
    /// deliberately not deduplicated: one record per decision.
    pub fn insert_scrobble(&mut self, timestamp: u64, duration_secs: u64, track_id: String)
        requires
            store_wf(old(self)@),
        ensures
            store_wf(final(self)@),
            final(self)@ == (StoreView {
                scrobbles: old(self)@.scrobbles.push(ScrobbleRecordView {
                    timestamp,
                    duration_secs,
                    track_id: track_id@,
                    origin: "spotify"@,
                }),
                ..old(self)@
            }),
    {
        let origin = spotify_origin();
        let rec = ScrobbleRecord { timestamp, duration_secs, track_id, origin };
        self.scrobbles.push(rec);
        proof {
            assert(self@ =~= (StoreView {
                scrobbles: old(self)@.scrobbles.push(ScrobbleRecordView {
                    timestamp,
                    duration_secs,
                    track_id: track_id@,
                    origin: "spotify"@,
                }),
                ..old(self)@
            }));
        }
    }

    /// Link a track to an artist, unless that pair exists.
    pub fn link_track_artist(&mut self, track_id: String, artist_id: String)
        requires
            store_wf(old(self)@),
        ensures
            store_wf(final(self)@),
            final(self)@ == (StoreView {
                track_artists: upsert_pair_s(old(self)@.track_artists, (track_id, artist_id)),
                ..old(self)@
            }),
    {
        upsert_pair(&mut self.track_artists, track_id, artist_id);
        proof {
            assert(self@ =~= (StoreView {
                track_artists: upsert_pair_s(old(self)@.track_artists, (track_id, artist_id)),
                ..old(self)@
            }));
        }
    }

    /// Link a track to an album, unless that pair exists.
    pub fn link_track_album(&mut self, track_id: String, album_id: String)
        requires
            store_wf(old(self)@),
        ensures
            store_wf(final(self)@),
            final(self)@ == (StoreView {
                track_albums: upsert_pair_s(old(self)@.track_albums, (track_id, album_id)),
                ..old(self)@
            }),
    {
        upsert_pair(&mut self.track_albums, track_id, album_id);
        proof {
            assert(self@ =~= (StoreView {
                track_albums: upsert_pair_s(old(self)@.track_albums, (track_id, album_id)),
                ..old(self)@
            }));
        }
    }

    /// Link a track to a tag, unless that pair exists.
    pub fn link_track_tag(&mut self, track_id: String, tag_id: String)
        requires
            store_wf(old(self)@),
        ensures
            store_wf(final(self)@),
            final(self)@ == (StoreView {
                track_tags: upsert_pair_s(old(self)@.track_tags, (track_id, tag_id)),
                ..old(self)@
            }),
    {
        upsert_pair(&mut self.track_tags, track_id, tag_id);
        proof {
            assert(self@ =~= (StoreView {
                track_tags: upsert_pair_s(old(self)@.track_tags, (track_id, tag_id)),
                ..old(self)@
            }));
        }
    }

    /// Link an album to an artist, unless that pair exists.
    pub fn link_album_artist(&mut self, album_id: String, artist_id: String)
        requires
            store_wf(old(self)@),
        ensures
            store_wf(final(self)@),
            final(self)@ == (StoreView {
                album_artists: upsert_pair_s(old(self)@.album_artists, (album_id, artist_id)),
                ..old(self)@
            }),
    {
        upsert_pair(&mut self.album_artists, album_id, artist_id);
        proof {
            assert(self@ =~= (StoreView {
                album_artists: upsert_pair_s(old(self)@.album_artists, (album_id, artist_id)),
                ..old(self)@
            }));
        }
    }

    /// The timestamp of the most recent persisted scrobble: the maximum over
    /// the log, or nothing if the log is empty.
    pub fn last_scrobble_timestamp(&self) -> (r: Option<u64>)
        ensures
            r is None <==> self@.scrobbles.len() == 0,
            r matches Some(t) ==> {
                &&& exists|i: int|
                    0 <= i < self@.scrobbles.len() && self@.scrobbles[i].timestamp == t
                &&& forall|i: int|
                    0 <= i < self@.scrobbles.len() ==> self@.scrobbles[i].timestamp <= t
            },
    {
        if self.scrobbles.len() == 0 {
            return None;
        }
        let mut best: u64 = self.scrobbles[0].timestamp;
        let mut i: usize = 1;
        proof {
            assert(self@.scrobbles[0].timestamp == best);
        }
        while i < self.scrobbles.len()
            invariant
                1 <= i <= self.scrobbles.len(),
                exists|j: int| 0 <= j < i && self@.scrobbles[j].timestamp == best,
                forall|j: int| 0 <= j < i ==> self@.scrobbles[j].timestamp <= best,
            decreases self.scrobbles.len() - i,
        {
            let t = self.scrobbles[i].timestamp;
            proof {
                assert(self@.scrobbles[i as int].timestamp == t);
            }
            if t > best {
                best = t;
            }
            i = i + 1;
        }
        Some(best)
    }

    /// The track table.
    pub fn tracks(&self) -> (r: &Vec<Track>)
        ensures
            r@ == self@.tracks,
    {
        &self.tracks
    }

    /// The album table.
    pub fn albums(&self) -> (r: &Vec<Album>)
        ensures
            r@ == self@.albums,
    {
        &self.albums
    }

    /// The artist table.
    pub fn artists(&self) -> (r: &Vec<Artist>)
        ensures
            r@ == self@.artists,
    {
        &self.artists
    }

    /// The tag table.
    pub fn tags(&self) -> (r: &Vec<Tag>)
        ensures
            r@ == self@.tags,
    {
        &self.tags
    }

    /// The scrobble log, in append order.
    pub fn scrobbles(&self) -> (r: &Vec<ScrobbleRecord>)
        ensures
            r@.map_values(|rec: ScrobbleRecord| rec@) == self@.scrobbles,
    {
        &self.scrobbles
    }

    /// The track-artist link table.
    pub fn track_artists(&self) -> (r: &Vec<(String, String)>)
        ensures
            r@ == self@.track_artists,
    {
        &self.track_artists
    }

    /// The track-album link table.
    pub fn track_albums(&self) -> (r: &Vec<(String, String)>)
        ensures
            r@ == self@.track_albums,
    {
        &self.track_albums
    }

    /// The track-tag link table.
    pub fn track_tags(&self) -> (r: &Vec<(String, String)>)
        ensures
            r@ == self@.track_tags,
    {
        &self.track_tags
    }

    /// The album-artist link table.
    pub fn album_artists(&self) -> (r: &Vec<(String, String)>)
        ensures
            r@ == self@.album_artists,
    {
        &self.album_artists
    }
}

fn contains_album(rows: &Vec<Album>, id: &String) -> (b: bool)
    ensures
        b == has_album_id(rows@, id@),
{
    let mut i: usize = 0;
    let mut found: bool = false;
    while i < rows.len()
        invariant
            i <= rows.len(),
            found == exists|j: int| 0 <= j < i && rows@[j].id@ == id@,
        decreases rows.len() - i,
    {
        if rows[i].id == *id {
            found = true;
        }
        i = i + 1;
    }
    found
}

fn contains_artist(rows: &Vec<Artist>, id: &String) -> (b: bool)
    ensures
        b == has_artist_id(rows@, id@),
{
    let mut i: usize = 0;
    let mut found: bool = false;
    while i < rows.len()
        invariant
            i <= rows.len(),
            found == exists|j: int| 0 <= j < i && rows@[j].id@ == id@,
        decreases rows.len() - i,
    {
        if rows[i].id == *id {
            found = true;
        }
        i = i + 1;
    }
    found
}

fn contains_tag(rows: &Vec<Tag>, id: &String) -> (b: bool)
    ensures
        b == has_tag_id(rows@, id@),
{
    let mut i: usize = 0;
    let mut found: bool = false;
    while i < rows.len()
        invariant
            i <= rows.len(),
            found == exists|j: int| 0 <= j < i && rows@[j].id@ == id@,
        decreases rows.len() - i,
    {
        if rows[i].id == *id {
            found = true;
        }
        i = i + 1;
    }
    found
}

/// Push `(left, right)` unless the pair is present; the table becomes
/// `upsert_pair_s` of the old one.
fn upsert_pair(rows: &mut Vec<(String, String)>, left: String, right: String)
    requires
        pairs_unique(old(rows)@),
    ensures
        final(rows)@ == upsert_pair_s(old(rows)@, (left, right)),
        pairs_unique(final(rows)@),
{
    let mut i: usize = 0;
    let mut found: bool = false;
    while i < rows.len()
        invariant
            rows@ == old(rows)@,
            i <= rows.len(),
            found == exists|j: int| 0 <= j < i && rows@[j].0@ == left@ && rows@[j].1@ == right@,
        decreases rows.len() - i,
    {
        if rows[i].0 == left && rows[i].1 == right {
            found = true;
        }
        i = i + 1;
    }
    if !found {
        rows.push((left, right));
    }
}

/// The origin label stamped on every record this engine appends.
fn spotify_origin() -> (s: String)
    ensures
        s@ == "spotify"@,
{
    String::from_str("spotify")
}

} // verus!
