use scrobblify::clock::now_unix_secs;
use scrobblify::errors::TrackResolutionError;
use scrobblify::lastfm::{extract_tags, Attr, Tag as FeedTag, TrackTags, TrackTagsResponse};
use scrobblify::models::{Album, Artist, Tag, TrackInfo};
use scrobblify::spotify::{normalize_tags, resolve_snapshot, PlayableItem};
use scrobblify::utils::{
    fmt_secs_to_hhmm, format_time_from_duration, secs_to_hours_and_minutes, u64_to_string,
};

fn track(id: &str, isrc: &str) -> TrackInfo {
    TrackInfo {
        id: id.to_string(),
        title: "Title".to_string(),
        album: Album {
            id: "album-1".to_string(),
            title: "Album".to_string(),
            cover: String::new(),
        },
        artists: vec![Artist { id: "artist-1".to_string(), name: "Name".to_string() }],
        duration_secs: 180,
        tags: vec![],
        isrc: isrc.to_string(),
        cover: String::new(),
    }
}

#[test]
fn resolving_a_track_builds_a_fresh_snapshot() {
    let item = PlayableItem::Track(track("t1", "DE1234567890"));
    let s = resolve_snapshot(item, 777, Some(42)).unwrap();
    assert_eq!(s.track.id, "t1");
    assert_eq!(s.timestamp, 777);
    assert_eq!(s.progress_secs, 42);
    assert!(!s.scrobbled);
}

#[test]
fn missing_progress_defaults_to_zero() {
    let item = PlayableItem::Track(track("t1", "DE1234567890"));
    let s = resolve_snapshot(item, 777, None).unwrap();
    assert_eq!(s.progress_secs, 0);
}

#[test]
fn episodes_and_unknown_items_are_rejected() {
    assert_eq!(
        resolve_snapshot(PlayableItem::Episode, 0, None).unwrap_err(),
        TrackResolutionError::NotATrack
    );
    assert_eq!(
        resolve_snapshot(PlayableItem::Unknown, 0, None).unwrap_err(),
        TrackResolutionError::NotATrack
    );
}

#[test]
fn a_track_without_isrc_is_rejected() {
    let item = PlayableItem::Track(track("t1", ""));
    assert_eq!(
        resolve_snapshot(item, 0, None).unwrap_err(),
        TrackResolutionError::MissingIsrc
    );
}

#[test]
fn normalize_tags_keeps_first_occurrences() {
    let tags = vec![
        Tag { id: "rock".to_string() },
        Tag { id: "pop".to_string() },
        Tag { id: "rock".to_string() },
        Tag { id: "jazz".to_string() },
        Tag { id: "pop".to_string() },
    ];
    let r = normalize_tags(tags);
    let ids: Vec<&str> = r.iter().map(|t| t.id.as_str()).collect();
    assert_eq!(ids, vec!["rock", "pop", "jazz"]);
}

fn feed_tag(name: &str, count: i64) -> FeedTag {
    FeedTag {
        count,
        name: name.to_string(),
        url: format!("https://tags.example/{}", name),
    }
}

fn response(tags: Vec<FeedTag>) -> TrackTagsResponse {
    TrackTagsResponse {
        track_tags: TrackTags {
            tags,
            attr: Attr { artist: "Artist".to_string(), track: "Track".to_string() },
        },
    }
}

#[test]
fn extract_tags_keeps_three_lowest_counts_in_order() {
    let tt = response(vec![
        feed_tag("a", 5),
        feed_tag("b", 1),
        feed_tag("c", 3),
        feed_tag("d", 2),
        feed_tag("e", 4),
    ]);
    let r = extract_tags(tt);
    let ids: Vec<&str> = r.iter().map(|t| t.id.as_str()).collect();
    assert_eq!(ids, vec!["b", "d", "c"]);
}

#[test]
fn extract_tags_of_a_short_feed_keeps_everything() {
    let tt = response(vec![feed_tag("only", 7)]);
    let r = extract_tags(tt);
    assert_eq!(r.len(), 1);
    assert_eq!(r[0].id, "only");

    let empty = response(vec![]);
    assert_eq!(extract_tags(empty).len(), 0);
}

#[test]
fn decimal_rendering() {
    assert_eq!(u64_to_string(0), "0");
    assert_eq!(u64_to_string(7), "7");
    assert_eq!(u64_to_string(1234), "1234");
    assert_eq!(u64_to_string(1000000), "1000000");
}

#[test]
fn minutes_seconds_rendering() {
    assert_eq!(format_time_from_duration(192), "3:12");
    assert_eq!(format_time_from_duration(180), "3:0");
    assert_eq!(format_time_from_duration(59), "0:59");
    assert_eq!(format_time_from_duration(0), "0:0");
}

#[test]
fn hours_and_minutes_split() {
    assert_eq!(secs_to_hours_and_minutes(3700), (1, 40));
    assert_eq!(secs_to_hours_and_minutes(120), (0, 2));
    assert_eq!(secs_to_hours_and_minutes(0), (0, 0));
    assert_eq!(secs_to_hours_and_minutes(7322), (2, 2));
}

#[test]
fn zero_padded_hhmm_rendering() {
    assert_eq!(fmt_secs_to_hhmm(3700), "01:40");
    assert_eq!(fmt_secs_to_hhmm(120), "00:02");
    assert_eq!(fmt_secs_to_hhmm(0), "00:00");
}

#[test]
fn the_clock_reads_a_modern_unix_time() {
    assert!(now_unix_secs() > 1_000_000_000);
}
