use scrobblify::app::App;
use scrobblify::models::{Album, Artist, CurrentPlayingTrack, ScrobbleInfo, Tag, TrackInfo};
use scrobblify::repository::Repository;
use scrobblify::scrobbler::{Scrobbler, ScrobblerResult, SCROBBLE_LISTENING_MIN_SECS};

fn track(id: &str, title: &str, duration_secs: u64) -> TrackInfo {
    TrackInfo {
        id: id.to_string(),
        title: title.to_string(),
        album: Album {
            id: format!("album-{}", id),
            title: format!("{} LP", title),
            cover: "https://covers.example/1".to_string(),
        },
        artists: vec![
            Artist { id: format!("artist-{}", id), name: "Someone".to_string() },
        ],
        duration_secs,
        tags: vec![],
        isrc: format!("ISRC{}", id),
        cover: "https://covers.example/1".to_string(),
    }
}

fn snapshot(t: TrackInfo, session_start: u64, progress: u64) -> CurrentPlayingTrack {
    CurrentPlayingTrack {
        track: t,
        timestamp: session_start,
        progress_secs: progress,
        scrobbled: false,
    }
}

/// Run one poll cycle against the engine, mirroring the scheduler: decide,
/// ingest on a positive verdict (fetching tags only when needed), then apply
/// the verdict to the cache.
fn cycle(app: &mut App, current: Option<CurrentPlayingTrack>, now: u64) -> ScrobblerResult {
    let verdict = Scrobbler::calculate_scrobble(&current, app.get_current_track(), now);
    if let ScrobblerResult::Scrobble(ev) = &verdict {
        let tags: Vec<Tag> = if app.needs_tag_fetch(ev) {
            vec![Tag { id: "fetched-genre".to_string() }]
        } else {
            vec![]
        };
        app.scrobble(ev, &tags).unwrap();
    }
    app.apply_verdict(&current, &verdict, true);
    verdict
}

#[test]
fn threshold_constant_is_three_minutes() {
    assert_eq!(SCROBBLE_LISTENING_MIN_SECS, 180);
}

#[test]
fn nothing_playing_yields_not_playing_for_any_cache() {
    let mut app = App::new(Repository::new());
    assert!(matches!(cycle(&mut app, None, 0), ScrobblerResult::NotPlaying));

    // also with a session cached
    let t = track("t1", "One", 200);
    assert!(matches!(
        cycle(&mut app, Some(snapshot(t, 0, 0)), 0),
        ScrobblerResult::Cache
    ));
    assert!(matches!(cycle(&mut app, None, 30), ScrobblerResult::NotPlaying));
    assert!(app.get_current_track().is_none());
}

#[test]
fn first_observation_is_cached() {
    let mut app = App::new(Repository::new());
    let t = track("t1", "One", 200);
    let v = cycle(&mut app, Some(snapshot(t, 10, 0)), 10);
    assert!(matches!(v, ScrobblerResult::Cache));
    let cached = app.get_current_track().as_ref().unwrap();
    assert_eq!(cached.track.id, "t1");
    assert_eq!(cached.timestamp, 10);
    assert!(!cached.scrobbled);
}

#[test]
fn already_scrobbled_session_stays_scrobbled() {
    let current = Some(snapshot(track("t1", "One", 180), 0, 0));
    let mut cached = snapshot(track("t1", "One", 180), 0, 0);
    cached.scrobbled = true;
    let v = Scrobbler::calculate_scrobble(&current, &Some(cached), 500);
    assert!(matches!(v, ScrobblerResult::AlreadyScrobbled));
}

#[test]
fn threshold_rule_on_same_session() {
    // duration 400: half is 200, above the 180 floor, so 180 wins
    let current = Some(snapshot(track("t1", "One", 400), 0, 0));
    let cached = Some(snapshot(track("t1", "One", 400), 0, 0));
    assert!(matches!(
        Scrobbler::calculate_scrobble(&current, &cached, 179),
        ScrobblerResult::NotReadyForScrobble
    ));
    match Scrobbler::calculate_scrobble(&current, &cached, 180) {
        ScrobblerResult::Scrobble(ev) => {
            assert_eq!(ev.duration_secs, 400);
            assert_eq!(ev.timestamp, 0);
        }
        _ => panic!("expected a scrobble at the fixed minimum"),
    }

    // duration 100: half is 50, under the floor, so 50 wins
    let current = Some(snapshot(track("t2", "Two", 100), 0, 0));
    let cached = Some(snapshot(track("t2", "Two", 100), 0, 0));
    assert!(matches!(
        Scrobbler::calculate_scrobble(&current, &cached, 49),
        ScrobblerResult::NotReadyForScrobble
    ));
    assert!(matches!(
        Scrobbler::calculate_scrobble(&current, &cached, 50),
        ScrobblerResult::Scrobble(_)
    ));
}

#[test]
fn clock_behind_session_start_clamps_to_not_ready() {
    let current = Some(snapshot(track("t1", "One", 180), 100, 0));
    let cached = Some(snapshot(track("t1", "One", 180), 100, 0));
    assert!(matches!(
        Scrobbler::calculate_scrobble(&current, &cached, 5),
        ScrobblerResult::NotReadyForScrobble
    ));
}

#[test]
fn scenario_a_short_listen_never_scrobbles() {
    // 180 s track, heard from t=0 to t=82 only, then the session disappears
    let mut app = App::new(Repository::new());
    let t = || track("slaysenflite", "(Fine Layers of) Slaysenflite", 180);
    assert!(matches!(
        cycle(&mut app, Some(snapshot(t(), 0, 0)), 0),
        ScrobblerResult::Cache
    ));
    for now in [30u64, 60, 82] {
        assert!(matches!(
            cycle(&mut app, Some(snapshot(t(), 0, now)), now),
            ScrobblerResult::NotReadyForScrobble
        ));
    }
    assert!(matches!(cycle(&mut app, None, 90), ScrobblerResult::NotPlaying));
    assert_eq!(app.db().scrobbles().len(), 0);
    assert!(app.get_current_track().is_none());
}

#[test]
fn scenario_b_half_duration_scrobbles_with_full_length() {
    // same 180 s track, still playing at t=126 (elapsed >= 90 = half)
    let mut app = App::new(Repository::new());
    let t = || track("slaysenflite", "(Fine Layers of) Slaysenflite", 180);
    assert!(matches!(
        cycle(&mut app, Some(snapshot(t(), 0, 0)), 0),
        ScrobblerResult::Cache
    ));
    match cycle(&mut app, Some(snapshot(t(), 0, 126)), 126) {
        ScrobblerResult::Scrobble(ev) => {
            assert_eq!(ev.duration_secs, 180);
            assert_eq!(ev.timestamp, 0);
            assert_eq!(ev.track.id, "slaysenflite");
        }
        _ => panic!("expected a scrobble at t=126"),
    }
    let recs = app.db().scrobbles();
    assert_eq!(recs.len(), 1);
    assert_eq!(recs[0].timestamp, 0);
    assert_eq!(recs[0].duration_secs, 180);
    assert_eq!(recs[0].track_id, "slaysenflite");
    assert_eq!(recs[0].origin, "spotify");
}

#[test]
fn scenario_c_only_first_qualifying_poll_scrobbles() {
    let mut app = App::new(Repository::new());
    let t = || track("slaysenflite", "(Fine Layers of) Slaysenflite", 180);
    assert!(matches!(
        cycle(&mut app, Some(snapshot(t(), 0, 0)), 0),
        ScrobblerResult::Cache
    ));
    assert!(matches!(
        cycle(&mut app, Some(snapshot(t(), 0, 126)), 126),
        ScrobblerResult::Scrobble(_)
    ));
    for now in [180u64, 237] {
        assert!(matches!(
            cycle(&mut app, Some(snapshot(t(), 0, now)), now),
            ScrobblerResult::AlreadyScrobbled
        ));
    }
    assert_eq!(app.db().scrobbles().len(), 1);
}

#[test]
fn scenario_d_session_change_discards_unqualified_session() {
    let mut app = App::new(Repository::new());
    let a = track("track-a", "A", 180);
    let b = || track("track-b", "B", 180);
    assert!(matches!(
        cycle(&mut app, Some(snapshot(a, 0, 0)), 0),
        ScrobblerResult::Cache
    ));
    // track B appears at t=30, before A ever qualified
    assert!(matches!(
        cycle(&mut app, Some(snapshot(b(), 30, 0)), 30),
        ScrobblerResult::Cache
    ));
    let cached = app.get_current_track().as_ref().unwrap();
    assert_eq!(cached.track.id, "track-b");
    // A was never scrobbled
    assert_eq!(app.db().scrobbles().len(), 0);
}

#[test]
fn ingestion_failure_advances_cache_unmarked() {
    // the scheduler's policy when the store write fails: the cache still
    // advances to the current snapshot, left unmarked
    let mut app = App::new(Repository::new());
    let current = Some(snapshot(track("t1", "One", 100), 0, 0));
    let ev = ScrobbleInfo {
        timestamp: 0,
        duration_secs: 100,
        track: track("t1", "One", 100),
    };
    let verdict = ScrobblerResult::Scrobble(ev);
    app.apply_verdict(&current, &verdict, false);
    let cached = app.get_current_track().as_ref().unwrap();
    assert_eq!(cached.track.id, "t1");
    assert!(!cached.scrobbled);
}

#[test]
fn calculate_scrobble_now_sees_nothing_playing() {
    let r = Scrobbler::calculate_scrobble_now(&None, &None);
    assert!(matches!(r, ScrobblerResult::NotPlaying));
}
