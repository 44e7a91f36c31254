//! The Track Source boundary: what the provider reports, resolved into the
//! engine's own snapshot type.
//!
//! The provider's "currently playing" payload is duck-shaped; here it is an
//! explicit tagged variant, so a non-track item is a concrete, testable case
//! rather than an unwrap failure.

use vstd::prelude::*;

use crate::errors::TrackResolutionError;
use crate::models::{CurrentPlayingTrack, CurrentPlayingTrackView, Tag, TrackInfo};
use crate::repository::has_tag_id;

verus! {

/// What the provider reports as currently playing.
pub enum PlayableItem {
    /// A music track, with its full metadata.
    Track(TrackInfo),
    /// A podcast episode: never scrobbled.
    Episode,
    /// A payload shape this engine does not know.
    Unknown,
}

/// Resolve one provider payload into a playback snapshot.
///
/// A track with an ISRC becomes a fresh, unscrobbled snapshot whose session
/// start is `timestamp` and whose progress defaults to zero when the
/// provider omits it. A non-track item or a track without an ISRC is
/// rejected, so the caller treats the cycle as "nothing usable".
pub fn resolve_snapshot(item: PlayableItem, timestamp: u64, progress_secs: Option<u64>) -> (r:
    Result<CurrentPlayingTrack, TrackResolutionError>)
    ensures
        r matches Ok(s) ==> {
            &&& item matches PlayableItem::Track(t)
            &&& t.isrc@.len() > 0
            &&& s@ == (CurrentPlayingTrackView {
                track: t@,
                timestamp,
                progress_secs: match progress_secs {
                    Some(p) => p,
                    None => 0,
                },
                scrobbled: false,
            })
        },
        r matches Err(e) ==> match item {
            PlayableItem::Track(t) => t.isrc@.len() == 0 && e == TrackResolutionError::MissingIsrc,
            PlayableItem::Episode => e == TrackResolutionError::NotATrack,
            PlayableItem::Unknown => e == TrackResolutionError::NotATrack,
        },
        r is Ok <==> (item matches PlayableItem::Track(t) && t.isrc@.len() > 0),
{
    match item {
        PlayableItem::Track(track) => {
            if track.isrc.as_str().is_empty() {
                Err(TrackResolutionError::MissingIsrc)
            } else {
                let progress = match progress_secs {
                    Some(p) => p,
                    None => 0,
                };
                let s = CurrentPlayingTrack {
                    track,
                    timestamp,
                    progress_secs: progress,
                    scrobbled: false,
                };
                Ok(s)
            }
        },
        PlayableItem::Episode => Err(TrackResolutionError::NotATrack),
        PlayableItem::Unknown => Err(TrackResolutionError::NotATrack),
    }
}

/// Deduplicate a provider's genre-tag list by tag id, keeping first
/// occurrences: the result's ids are unique, every result element comes from
/// the input, and every input id is represented.
pub fn normalize_tags(tags: Vec<Tag>) -> (r: Vec<Tag>)
    ensures
        forall|i: int, j: int| 0 <= i < j < r@.len() ==> r@[i].id@ != r@[j].id@,
        forall|i: int| 0 <= i < r@.len() ==> tags@.contains(r@[i]),
        forall|i: int| 0 <= i < tags@.len() ==> has_tag_id(r@, tags@[i].id@),
{
    let mut r: Vec<Tag> = Vec::new();
    let mut k: usize = 0;
    while k < tags.len()
        invariant
            k <= tags.len(),
            forall|i: int, j: int| 0 <= i < j < r@.len() ==> r@[i].id@ != r@[j].id@,
            forall|i: int| 0 <= i < r@.len() ==> tags@.contains(r@[i]),
            forall|i: int| 0 <= i < k ==> has_tag_id(r@, tags@[i].id@),
        decreases tags.len() - k,
    {
        let seen = tag_seen(&r, &tags[k].id);
        if !seen {
            let t = tags[k].clone();
            let ghost r_before = r@;
            r.push(t);
            proof {
                assert(r@[r@.len() - 1] == tags@[k as int]);
                assert(tags@.contains(r@[r@.len() - 1]));
                assert forall|i: int| 0 <= i < k + 1 implies has_tag_id(r@, tags@[i].id@) by {
                    if i < k {
                        let w = choose|j: int|
                            0 <= j < r_before.len() && r_before[j].id@ == tags@[i].id@;
                        assert(r@[w].id@ == tags@[i].id@);
                    } else {
                        assert(r@[r@.len() - 1].id@ == tags@[i].id@);
                    }
                }
            }
        }
        k = k + 1;
    }
    r
}

fn tag_seen(rows: &Vec<Tag>, id: &String) -> (b: bool)
    ensures
        b == has_tag_id(rows@, id@),
{
    let mut i: usize = 0;
    let mut found: bool = false;
    while i < rows.len()
        invariant
            i <= rows.len(),
            found == exists|j: int| 0 <= j < i && rows@[j].id@ == id@,
        decreases rows.len() - i,
    {
        if rows[i].id == *id {
            found = true;
        }
        i = i + 1;
    }
    found
}

} // verus!
