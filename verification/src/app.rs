//! The engine around the entity store: the idempotent ingestion pipeline and
//! the single cached "current track" cell the poller owns.
//!
//! Ingestion makes every entity referenced by a scrobble event exist exactly
//! once and appends exactly one scrobble record. The expensive external tag
//! fetch is the caller's job and is needed only when the event's track has
//! never been seen: [`App::needs_tag_fetch`] says when, and
//! [`lemma_ingest_idempotent`] proves the second ingest of a track changes no
//! entity table and skips the fetch.

use vstd::prelude::*;

use crate::errors::DatabaseError;
use crate::models::{
    Artist, CurrentPlayingTrack, CurrentPlayingTrackView, HistoryPlayedTrack, ScrobbleInfo,
    ScrobbleInfoView, Tag, Track, TrackInfoView,
};
use crate::repository::{
    has_track_id, store_wf, upsert_album_s, upsert_artist_s, upsert_pair_s, upsert_tag_s,
    upsert_track_s, Repository, ScrobbleRecordView, StoreView,
};
use crate::scrobbler::{opt_view, verdict_kind_of, ScrobblerResult, VerdictKind};

verus! {

/// The track table row an event's track maps to.
pub open spec fn track_row_s(t: TrackInfoView) -> Track {
    Track { id: t.id, title: t.title, duration_secs: t.duration_secs, isrc: t.isrc }
}

/// Insert-if-absent of each artist in order.
pub open spec fn upsert_artists_s(rows: Seq<Artist>, items: Seq<Artist>) -> Seq<Artist>
    decreases items.len(),
{
    if items.len() == 0 {
        rows
    } else {
        upsert_artist_s(upsert_artists_s(rows, items.drop_last()), items.last())
    }
}

/// Insert-if-absent of each tag in order.
pub open spec fn upsert_tags_s(rows: Seq<Tag>, items: Seq<Tag>) -> Seq<Tag>
    decreases items.len(),
{
    if items.len() == 0 {
        rows
    } else {
        upsert_tag_s(upsert_tags_s(rows, items.drop_last()), items.last())
    }
}

/// Insert-if-absent of one track-artist link per artist, in order.
pub open spec fn track_artist_links_s(
    rows: Seq<(String, String)>,
    track_id: String,
    items: Seq<Artist>,
) -> Seq<(String, String)>
    decreases items.len(),
{
    if items.len() == 0 {
        rows
    } else {
        upsert_pair_s(
            track_artist_links_s(rows, track_id, items.drop_last()),
            (track_id, items.last().id),
        )
    }
}

/// Insert-if-absent of one album-artist link per artist, in order.
pub open spec fn album_artist_links_s(
    rows: Seq<(String, String)>,
    album_id: String,
    items: Seq<Artist>,
) -> Seq<(String, String)>
    decreases items.len(),
{
    if items.len() == 0 {
        rows
    } else {
        upsert_pair_s(
            album_artist_links_s(rows, album_id, items.drop_last()),
            (album_id, items.last().id),
        )
    }
}

/// Insert-if-absent of one track-tag link per tag, in order.
pub open spec fn track_tag_links_s(
    rows: Seq<(String, String)>,
    track_id: String,
    items: Seq<Tag>,
) -> Seq<(String, String)>
    decreases items.len(),
{
    if items.len() == 0 {
        rows
    } else {
        upsert_pair_s(
            track_tag_links_s(rows, track_id, items.drop_last()),
            (track_id, items.last().id),
        )
    }
}

/// What one ingested event does to the store.
///
/// A never-seen track brings its row, its artists, the fetched tags and its
/// album into the tables; a known track brings nothing new and the fetched
/// tags are ignored (the tag links then use the tags the event itself
/// carries). Either way exactly one scrobble record is appended and the link
/// rows are inserted if absent.
pub open spec fn ingest_spec(s: StoreView, ev: ScrobbleInfoView, fetched: Seq<Tag>) -> StoreView {
    let absent = !has_track_id(s.tracks, ev.track.id@);
    let link_tags = if absent {
        fetched
    } else {
        ev.track.tags
    };
    StoreView {
        tracks: if absent {
            upsert_track_s(s.tracks, track_row_s(ev.track))
        } else {
            s.tracks
        },
        albums: if absent {
            upsert_album_s(s.albums, ev.track.album)
        } else {
            s.albums
        },
        artists: if absent {
            upsert_artists_s(s.artists, ev.track.artists)
        } else {
            s.artists
        },
        tags: if absent {
            upsert_tags_s(s.tags, fetched)
        } else {
            s.tags
        },
        scrobbles: s.scrobbles.push(
            ScrobbleRecordView {
                timestamp: ev.timestamp,
                duration_secs: ev.duration_secs,
                track_id: ev.track.id@,
                origin: "spotify"@,
            },
        ),
        track_artists: track_artist_links_s(s.track_artists, ev.track.id, ev.track.artists),
        track_albums: upsert_pair_s(s.track_albums, (ev.track.id, ev.track.album.id)),
        track_tags: track_tag_links_s(s.track_tags, ev.track.id, link_tags),
        album_artists: album_artist_links_s(s.album_artists, ev.track.album.id, ev.track.artists),
    }
}

/// Mathematical value of the [`App`]: the store plus the cached snapshot.
#[verifier::ext_equal]
pub struct AppView {
    pub db: StoreView,
    pub current_track: Option<CurrentPlayingTrackView>,
}

/// The engine state: the entity store and the one cached snapshot.
pub struct App {
    db: Repository,
    current_track: Option<CurrentPlayingTrack>,
}

impl View for App {
    type V = AppView;

    closed spec fn view(&self) -> AppView {
        AppView { db: self.db@, current_track: opt_view(self.current_track) }
    }
}

impl App {
    /// An engine over the given store, with nothing cached yet.
    pub fn new(db: Repository) -> (a: App)
        ensures
            a@.db == db@,
            a@.current_track is None,
    {
        App { db, current_track: None }
    }

    /// The cached snapshot.
    pub fn get_current_track(&self) -> (r: &Option<CurrentPlayingTrack>)
        ensures
            opt_view(*r) == self@.current_track,
    {
        &self.current_track
    }

    /// Replace the cached snapshot wholesale.
    pub fn set_current_track(&mut self, current_track: Option<CurrentPlayingTrack>)
        ensures
            final(self)@.current_track == opt_view(current_track),
            final(self)@.db == old(self)@.db,
    {
        self.current_track = current_track;
    }

    /// The entity store.
    pub fn db(&self) -> (r: &Repository)
        ensures
            r@ == self@.db,
    {
        &self.db
    }

    /// Whether ingesting this event would need the external tag fetch: true
    /// exactly when the event's track has never been seen.
    pub fn needs_tag_fetch(&self, ev: &ScrobbleInfo) -> (b: bool)
        ensures
            b == !has_track_id(self@.db.tracks, ev.track.id@),
    {
        !self.db.has_track(&ev.track.id)
    }

    /// Ingest one scrobble event: make the entity graph exist exactly once
    /// and append one scrobble record. `fetched_tags` is the result of the
    /// external tag fetch; it is read only when the track is new (see
    /// [`App::needs_tag_fetch`]). The in-memory store is total, so success
    /// is owed on every input.
    pub fn scrobble(&mut self, ev: &ScrobbleInfo, fetched_tags: &Vec<Tag>) -> (r: Result<
        (),
        DatabaseError,
    >)
        requires
            store_wf(old(self)@.db),
        ensures
            store_wf(final(self)@.db),
            r is Ok,
            final(self)@.db == ingest_spec(old(self)@.db, ev@, fetched_tags@),
            final(self)@.current_track == old(self)@.current_track,
    {
        let ghost s0 = self.db@;
        let absent = !self.db.has_track(&ev.track.id);
        if absent {
            self.db.insert_track(
                Track {
                    id: ev.track.id.clone(),
                    title: ev.track.title.clone(),
                    duration_secs: ev.track.duration_secs,
                    isrc: ev.track.isrc.clone(),
                },
            );
            proof {
                assert(self.db@ =~= (StoreView {
                    tracks: upsert_track_s(s0.tracks, track_row_s(ev@.track)),
                    ..s0
                }));
            }
            let ghost s1 = self.db@;
            let mut i: usize = 0;
            while i < ev.track.artists.len()
                invariant
                    store_wf(self.db@),
                    self.current_track == old(self).current_track,
                    i <= ev.track.artists.len(),
                    self.db@ == (StoreView {
                        artists: upsert_artists_s(s1.artists, ev@.track.artists.take(i as int)),
                        ..s1
                    }),
                decreases ev.track.artists.len() - i,
            {
                self.db.insert_artist(ev.track.artists[i].clone());
                proof {
                    assert(ev@.track.artists.take(i + 1).drop_last() =~= ev@.track.artists.take(
                        i as int,
                    ));
                    assert(ev@.track.artists.take(i + 1).last() == ev@.track.artists[i as int]);
                    assert(self.db@ =~= (StoreView {
                        artists: upsert_artists_s(s1.artists, ev@.track.artists.take(i + 1)),
                        ..s1
                    }));
                }
                i = i + 1;
            }
            proof {
                assert(ev@.track.artists.take(ev@.track.artists.len() as int) =~= ev@.track.artists);
            }
            let ghost s2 = self.db@;
            let mut i: usize = 0;
            while i < fetched_tags.len()
                invariant
                    store_wf(self.db@),
                    self.current_track == old(self).current_track,
                    i <= fetched_tags.len(),
                    self.db@ == (StoreView {
                        tags: upsert_tags_s(s2.tags, fetched_tags@.take(i as int)),
                        ..s2
                    }),
                decreases fetched_tags.len() - i,
            {
                self.db.insert_tag(fetched_tags[i].clone());
                proof {
                    assert(fetched_tags@.take(i + 1).drop_last() =~= fetched_tags@.take(i as int));
                    assert(fetched_tags@.take(i + 1).last() == fetched_tags@[i as int]);
                    assert(self.db@ =~= (StoreView {
                        tags: upsert_tags_s(s2.tags, fetched_tags@.take(i + 1)),
                        ..s2
                    }));
                }
                i = i + 1;
            }
            proof {
                assert(fetched_tags@.take(fetched_tags@.len() as int) =~= fetched_tags@);
            }
            self.db.insert_album(ev.track.album.clone());
        }
        self.db.insert_scrobble(ev.timestamp, ev.duration_secs, ev.track.id.clone());
        let link_tags: &Vec<Tag> = if absent {
            fetched_tags
        } else {
            &ev.track.tags
        };
        let ghost s6 = self.db@;
        let mut i: usize = 0;
        while i < link_tags.len()
            invariant
                store_wf(self.db@),
                self.current_track == old(self).current_track,
                i <= link_tags.len(),
                self.db@ == (StoreView {
                    track_tags: track_tag_links_s(s6.track_tags, ev@.track.id, link_tags@.take(
                        i as int,
                    )),
                    ..s6
                }),
            decreases link_tags.len() - i,
        {
            self.db.link_track_tag(ev.track.id.clone(), link_tags[i].id.clone());
            proof {
                assert(link_tags@.take(i + 1).drop_last() =~= link_tags@.take(i as int));
                assert(link_tags@.take(i + 1).last() == link_tags@[i as int]);
                assert(self.db@ =~= (StoreView {
                    track_tags: track_tag_links_s(s6.track_tags, ev@.track.id, link_tags@.take(
                        i + 1,
                    )),
                    ..s6
                }));
            }
            i = i + 1;
        }
        proof {
            assert(link_tags@.take(link_tags@.len() as int) =~= link_tags@);
        }
        let ghost s7 = self.db@;
        let mut i: usize = 0;
        while i < ev.track.artists.len()
            invariant
                store_wf(self.db@),
                self.current_track == old(self).current_track,
                i <= ev.track.artists.len(),
                self.db@ == (StoreView {
                    track_artists: track_artist_links_s(s7.track_artists, ev@.track.id, ev@.track
                        .artists.take(i as int)),
                    album_artists: album_artist_links_s(s7.album_artists, ev@.track.album.id, ev@
                        .track.artists.take(i as int)),
                    ..s7
                }),
            decreases ev.track.artists.len() - i,
        {
            self.db.link_track_artist(ev.track.id.clone(), ev.track.artists[i].id.clone());
            self.db.link_album_artist(ev.track.album.id.clone(), ev.track.artists[i].id.clone());
            proof {
                assert(ev@.track.artists.take(i + 1).drop_last() =~= ev@.track.artists.take(
                    i as int,
                ));
                assert(ev@.track.artists.take(i + 1).last() == ev@.track.artists[i as int]);
                assert(self.db@ =~= (StoreView {
                    track_artists: track_artist_links_s(s7.track_artists, ev@.track.id, ev@.track
                        .artists.take(i + 1)),
                    album_artists: album_artist_links_s(s7.album_artists, ev@.track.album.id, ev@
                        .track.artists.take(i + 1)),
                    ..s7
                }));
            }
            i = i + 1;
        }
        proof {
            assert(ev@.track.artists.take(ev@.track.artists.len() as int) =~= ev@.track.artists);
        }
        self.db.link_track_album(ev.track.id.clone(), ev.track.album.id.clone());
        proof {
            assert(self.db@ =~= ingest_spec(s0, ev@, fetched_tags@));
        }
        Ok(())
    }

    /// Apply one verdict to the cached snapshot, as the poller does each
    /// cycle: a scrobbled session is cached marked with the ingestion
    /// outcome, a fresh session is cached unmarked, an empty poll clears the
    /// cache, and the other verdicts leave it alone.
    pub fn apply_verdict(
        &mut self,
        current: &Option<CurrentPlayingTrack>,
        verdict: &ScrobblerResult,
        ingest_ok: bool,
    )
        requires
            (verdict_kind_of(*verdict) is Scrobble || verdict_kind_of(*verdict) is Cache)
                ==> opt_view(*current) is Some,
        ensures
            final(self)@.db == old(self)@.db,
            verdict_kind_of(*verdict) is Scrobble ==> final(self)@.current_track == Some(
                CurrentPlayingTrackView { scrobbled: ingest_ok, ..opt_view(*current)->0 },
            ),
            verdict_kind_of(*verdict) is Cache ==> final(self)@.current_track == Some(
                CurrentPlayingTrackView { scrobbled: false, ..opt_view(*current)->0 },
            ),
            verdict_kind_of(*verdict) is NotPlaying ==> final(self)@.current_track is None,
            (verdict_kind_of(*verdict) is AlreadyScrobbled || verdict_kind_of(
                *verdict,
            ) is NotReady) ==> final(self)@.current_track == old(self)@.current_track,
    {
        match verdict {
            ScrobblerResult::Scrobble(_) => {
                match current {
                    Some(c) => {
                        let mut t = c.clone();
                        t.scrobbled = ingest_ok;
                        proof {
                            assert(t@ =~= (CurrentPlayingTrackView {
                                scrobbled: ingest_ok,
                                ..c@
                            }));
                        }
                        self.current_track = Some(t);
                    },
                    None => {
                        proof {
                            assert(false);
                        }
                    },
                }
            },
            ScrobblerResult::Cache => {
                match current {
                    Some(c) => {
                        let mut t = c.clone();
                        t.scrobbled = false;
                        proof {
                            assert(t@ =~= (CurrentPlayingTrackView { scrobbled: false, ..c@ }));
                        }
                        self.current_track = Some(t);
                    },
                    None => {
                        proof {
                            assert(false);
                        }
                    },
                }
            },
            ScrobblerResult::NotPlaying => {
                self.current_track = None;
            },
            ScrobblerResult::AlreadyScrobbled => {
            },
            ScrobblerResult::NotReadyForScrobble => {
            },
        }
    }
}

/// Synthesize the scrobble events for a backfill pass: one per history
/// entry, starting at the entry's play time and counting the track's full
/// length. History entries are provider-confirmed completed plays, so no
/// threshold check applies.
pub fn backfill_events(entries: &Vec<HistoryPlayedTrack>) -> (evs: Vec<ScrobbleInfo>)
    ensures
        evs@.len() == entries@.len(),
        forall|i: int|
            0 <= i < entries@.len() ==> evs@[i]@ == (ScrobbleInfoView {
                timestamp: entries@[i]@.played_at,
                duration_secs: entries@[i]@.track.duration_secs,
                track: entries@[i]@.track,
            }),
{
    let mut evs: Vec<ScrobbleInfo> = Vec::new();
    let mut i: usize = 0;
    while i < entries.len()
        invariant
            i <= entries.len(),
            evs@.len() == i,
            forall|j: int|
                0 <= j < i ==> evs@[j]@ == (ScrobbleInfoView {
                    timestamp: entries@[j]@.played_at,
                    duration_secs: entries@[j]@.track.duration_secs,
                    track: entries@[j]@.track,
                }),
        decreases entries.len() - i,
    {
        let ev = ScrobbleInfo {
            timestamp: entries[i].played_at,
            duration_secs: entries[i].track.duration_secs,
            track: entries[i].track.clone(),
        };
        proof {
            assert(ev@ =~= (ScrobbleInfoView {
                timestamp: entries@[i as int]@.played_at,
                duration_secs: entries@[i as int]@.track.duration_secs,
                track: entries@[i as int]@.track,
            }));
        }
        evs.push(ev);
        i = i + 1;
    }
    evs
}

/// Ingesting the same event's track twice never creates a second track,
/// artist, album or tag row: after the first ingest the track is known, so
/// the second ingest leaves every entity table unchanged (and, by
/// [`App::needs_tag_fetch`], skips the external tag fetch). Only the
/// append-only scrobble log grows.
/// Every ingest appends exactly one scrobble record — the event's timestamp,
/// duration and track id under this engine's origin label — and touches no
/// earlier record.
pub proof fn lemma_ingest_appends_one(s: StoreView, ev: ScrobbleInfoView, tags: Seq<Tag>)
    ensures
        ({
            let s1 = ingest_spec(s, ev, tags);
            &&& s1.scrobbles.len() == s.scrobbles.len() + 1
            &&& s1.scrobbles.drop_last() == s.scrobbles
            &&& s1.scrobbles.last() == (ScrobbleRecordView {
                timestamp: ev.timestamp,
                duration_secs: ev.duration_secs,
                track_id: ev.track.id@,
                origin: "spotify"@,
            })
        }),
{
    assert(ingest_spec(s, ev, tags).scrobbles.drop_last() =~= s.scrobbles);
}

pub proof fn lemma_ingest_idempotent(
    s: StoreView,
    ev: ScrobbleInfoView,
    tags1: Seq<Tag>,
    tags2: Seq<Tag>,
)
    ensures
        ({
            let s1 = ingest_spec(s, ev, tags1);
            let s2 = ingest_spec(s1, ev, tags2);
            &&& has_track_id(s1.tracks, ev.track.id@)
            &&& s2.tracks == s1.tracks
            &&& s2.artists == s1.artists
            &&& s2.albums == s1.albums
            &&& s2.tags == s1.tags
        }),
{
    let s1 = ingest_spec(s, ev, tags1);
    if !has_track_id(s.tracks, ev.track.id@) {
        let rows = s.tracks.push(track_row_s(ev.track));
        assert(rows[rows.len() - 1].id@ == ev.track.id@);
        assert(has_track_id(rows, ev.track.id@));
    }
}

} // verus!
