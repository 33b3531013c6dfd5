use spotatui::domain::app::{App, QueueState};
use spotatui::domain::plugin_api::{ArtistRef, DeviceInfo, PlayableInfo, PlaybackState, TrackInfo};
use spotatui::domain::user_config::UserConfig;
use spotatui::infra::scripting::events::{
    diff_events, diff_state_events, is_valid_event_name, queue_uris, track_identity, ScriptEvent,
};

fn track(uri: &str, name: &str) -> TrackInfo {
    TrackInfo {
        uri: Some(uri.to_string()),
        name: name.to_string(),
        artists: vec!["Artist".to_string()],
        album: "Album".to_string(),
        duration_ms: 200_000,
        id: None,
        album_id: None,
        artist_refs: vec![ArtistRef { id: None, name: "Artist".to_string() }],
        is_playable: true,
        is_local: false,
        track_number: 0,
        explicit: false,
        image_url: None,
    }
}

fn playback(track: Option<TrackInfo>, is_playing: bool, progress_ms: u64) -> PlaybackState {
    PlaybackState {
        track,
        is_playing,
        progress_ms,
        shuffle: false,
        repeat: "off".to_string(),
        volume_percent: Some(50),
        device: None,
    }
}

fn device(id: &str, active: bool) -> DeviceInfo {
    DeviceInfo {
        id: Some(id.to_string()),
        name: id.to_string(),
        kind: "computer".to_string(),
        is_active: active,
        volume_percent: Some(50),
    }
}

#[test]
fn diff_none_to_some_is_track_change() {
    let new = Some(playback(Some(track("uri:1", "A")), true, 0));
    let q = Some(vec![]);
    let events = diff_events(&None, &None, &new, &q);
    assert!(events.contains(&ScriptEvent::TrackChange));
    assert!(events.contains(&ScriptEvent::PlaybackStateChange));
}

#[test]
fn diff_track_change_on_different_uri() {
    let old = Some(playback(Some(track("uri:1", "A")), true, 0));
    let new = Some(playback(Some(track("uri:2", "B")), true, 0));
    let q = Some(vec![]);
    let events = diff_events(&old, &q, &new, &q);
    assert!(events.contains(&ScriptEvent::TrackChange));
    assert!(!events.contains(&ScriptEvent::PlaybackStateChange));
}

#[test]
fn diff_play_pause_flip() {
    let old = Some(playback(Some(track("uri:1", "A")), true, 1000));
    let new = Some(playback(Some(track("uri:1", "A")), false, 1000));
    let q = Some(vec![]);
    let events = diff_events(&old, &q, &new, &q);
    assert_eq!(events, vec![ScriptEvent::PlaybackStateChange]);
}

#[test]
fn diff_seek_backward_beyond_threshold() {
    let old = Some(playback(Some(track("uri:1", "A")), true, 10_000));
    let new = Some(playback(Some(track("uri:1", "A")), true, 5_000));
    let q = Some(vec![]);
    let events = diff_events(&old, &q, &new, &q);
    assert!(events.contains(&ScriptEvent::Seek));
}

#[test]
fn diff_seek_forward_beyond_threshold() {
    let old = Some(playback(Some(track("uri:1", "A")), true, 1_000));
    let new = Some(playback(Some(track("uri:1", "A")), true, 9_000));
    let q = Some(vec![]);
    let events = diff_events(&old, &q, &new, &q);
    assert!(events.contains(&ScriptEvent::Seek));
}

#[test]
fn diff_small_forward_jump_is_not_seek() {
    let old = Some(playback(Some(track("uri:1", "A")), true, 1_000));
    let new = Some(playback(Some(track("uri:1", "A")), true, 4_000));
    let q = Some(vec![]);
    let events = diff_events(&old, &q, &new, &q);
    assert!(!events.contains(&ScriptEvent::Seek));
}

#[test]
fn diff_volume_change() {
    let old = Some(playback(Some(track("uri:1", "A")), true, 1_000));
    let mut new = playback(Some(track("uri:1", "A")), true, 1_000);
    new.volume_percent = Some(80);
    let q = Some(vec![]);
    let events = diff_events(&old, &q, &Some(new), &q);
    assert!(events.contains(&ScriptEvent::VolumeChange));
}

#[test]
fn diff_queue_change() {
    let old = Some(playback(Some(track("uri:1", "A")), true, 1_000));
    let new = old.clone();
    let old_q = Some(vec!["a".to_string()]);
    let new_q = Some(vec!["a".to_string(), "b".to_string()]);
    let events = diff_events(&old, &old_q, &new, &new_q);
    assert_eq!(events, vec![ScriptEvent::QueueChange]);
}

#[test]
fn diff_shuffle_change() {
    let old = Some(playback(Some(track("uri:1", "A")), true, 0));
    let mut new_pb = playback(Some(track("uri:1", "A")), true, 0);
    new_pb.shuffle = true;
    let q = Some(vec![]);
    let events = diff_events(&old, &q, &Some(new_pb), &q);
    assert_eq!(events, vec![ScriptEvent::ShuffleChange]);
}

#[test]
fn diff_repeat_change() {
    let old = Some(playback(Some(track("uri:1", "A")), true, 0));
    let mut new_pb = playback(Some(track("uri:1", "A")), true, 0);
    new_pb.repeat = "track".to_string();
    let q = Some(vec![]);
    let events = diff_events(&old, &q, &Some(new_pb), &q);
    assert_eq!(events, vec![ScriptEvent::RepeatChange]);
}

#[test]
fn diff_none_to_some_is_not_shuffle_or_repeat_change() {
    let mut new_pb = playback(Some(track("uri:1", "A")), false, 0);
    new_pb.shuffle = true;
    new_pb.repeat = "context".to_string();
    let q = Some(vec![]);
    let events = diff_events(&None, &q, &Some(new_pb), &q);
    assert!(!events.contains(&ScriptEvent::ShuffleChange));
    assert!(!events.contains(&ScriptEvent::RepeatChange));
}

#[test]
fn diff_identical_snapshots_emit_nothing() {
    let pb = Some(playback(Some(track("uri:1", "A")), true, 7_000));
    let q = Some(vec!["a".to_string()]);
    assert!(diff_events(&pb, &q, &pb, &q).is_empty());
}

#[test]
fn diff_track_change_comes_first() {
    let old = Some(playback(Some(track("uri:1", "A")), false, 0));
    let new = Some(playback(Some(track("uri:2", "B")), true, 0));
    let q = Some(vec![]);
    let events = diff_events(&old, &q, &new, &q);
    assert_eq!(events[0], ScriptEvent::TrackChange);
}

#[test]
fn diff_state_route_change_carries_new_name() {
    let events = diff_state_events("home", "queue", &[], &[], false);
    assert_eq!(events, vec![ScriptEvent::RouteChange("queue".to_string())]);
}

#[test]
fn diff_state_device_change_on_active_flip() {
    let old = [device("a", true), device("b", false)];
    let new = [device("a", false), device("b", true)];
    let events = diff_state_events("home", "home", &old, &new, false);
    assert_eq!(events, vec![ScriptEvent::DeviceChange]);
}

#[test]
fn diff_state_no_events_when_identical() {
    let devs = [device("a", true)];
    assert!(diff_state_events("home", "home", &devs, &devs, false).is_empty());
}

#[test]
fn diff_state_search_advance() {
    let events = diff_state_events("home", "home", &[], &[], true);
    assert_eq!(events, vec![ScriptEvent::SearchResults]);
}

#[test]
fn track_identity_falls_back_to_name() {
    let mut t = track("uri:1", "A");
    assert_eq!(track_identity(&playback(Some(t.clone()), true, 0)).as_deref(), Some("uri:1"));
    t.uri = None;
    assert_eq!(track_identity(&playback(Some(t), true, 0)).as_deref(), Some("A"));
    assert_eq!(track_identity(&playback(None, true, 0)), None);
}

#[test]
fn queue_uris_lists_current_then_upcoming() {
    let mut app = App::new(UserConfig::new());
    assert!(queue_uris(&app).is_empty());
    app.queue = Some(QueueState {
        currently_playing: Some(PlayableInfo::Track(track("uri:now", "Now"))),
        queue: vec![PlayableInfo::Track(track("uri:next", "Next"))],
    });
    assert_eq!(queue_uris(&app), vec!["uri:now".to_string(), "uri:next".to_string()]);
}

#[test]
fn event_names_are_checked() {
    assert!(is_valid_event_name("route_change"));
    assert!(!is_valid_event_name("bogus_event"));
}
