use spotatui::domain::app::{
    ActiveBlock, App, AppRequest, DeviceType, IoEvent, PlaybackContext, RepeatState, RouteId,
    SpotifyDevice, UserProfile,
};
use spotatui::domain::plugin_api::{PluginPopup, PluginScreenContent, PopupLine};
use spotatui::domain::user_config::{ThemeColor, UserConfig};
use spotatui::infra::scripting::api::{navigate_effect, search_request};
use spotatui::infra::scripting::effects::{apply_effect, apply_effects, remove_key, upsert_key, ScriptEffect};

fn make_app() -> App {
    App::new(UserConfig::new())
}

fn make_context(is_playing: bool, shuffle_state: bool) -> PlaybackContext {
    PlaybackContext {
        device: SpotifyDevice {
            id: Some("dev-test".to_string()),
            is_active: true,
            is_private_session: false,
            is_restricted: false,
            name: "Test Device".to_string(),
            device_type: DeviceType::Computer,
            volume_percent: Some(50),
        },
        repeat_state: RepeatState::Off,
        shuffle_state,
        is_playing,
    }
}

fn segment<'a>(app: &'a App, plugin: &str) -> Option<&'a str> {
    app.plugin_playbar_segments.iter().find(|(k, _)| k == plugin).map(|(_, v)| v.as_str())
}

#[test]
fn drain_pause_while_already_paused_is_noop() {
    let mut app = make_app();
    app.current_playback_context = Some(make_context(false, false));
    apply_effects(vec![ScriptEffect::Pause], &mut app);
    assert!(app.dispatched.is_empty(), "expected no IoEvent dispatched");
    assert!(app.requests.is_empty());
}

#[test]
fn drain_play_while_already_playing_is_noop() {
    let mut app = make_app();
    app.current_playback_context = Some(make_context(true, false));
    apply_effects(vec![ScriptEffect::Play], &mut app);
    assert!(app.dispatched.is_empty(), "expected no IoEvent dispatched");
    assert!(app.requests.is_empty());
}

#[test]
fn drain_shuffle_false_when_already_off_is_noop() {
    let mut app = make_app();
    app.current_playback_context = Some(make_context(false, false));
    apply_effects(vec![ScriptEffect::SetShuffle(false)], &mut app);
    assert!(app.dispatched.is_empty(), "expected no IoEvent dispatched");
    assert!(app.requests.is_empty());
}

#[test]
fn drain_pause_while_playing_dispatches_pause_playback() {
    let mut app = make_app();
    app.current_playback_context = Some(make_context(true, false));
    apply_effects(vec![ScriptEffect::Pause], &mut app);
    assert_eq!(app.dispatched, vec![IoEvent::PausePlayback]);
}

#[test]
fn drain_play_while_paused_dispatches_start_playback() {
    let mut app = make_app();
    app.current_playback_context = Some(make_context(false, false));
    apply_effects(vec![ScriptEffect::Play], &mut app);
    assert_eq!(app.dispatched, vec![IoEvent::StartPlayback(None, None, None)]);
}

#[test]
fn drain_shuffle_true_when_off_dispatches_shuffle_true() {
    let mut app = make_app();
    app.current_playback_context = Some(make_context(false, false));
    apply_effects(vec![ScriptEffect::SetShuffle(true)], &mut app);
    assert_eq!(app.dispatched, vec![IoEvent::Shuffle(true)]);
}

#[test]
fn drain_set_volume_sets_pending_volume() {
    let mut app = make_app();
    apply_effects(vec![ScriptEffect::SetVolume(80)], &mut app);
    assert_eq!(app.pending_volume, Some(80));
}

#[test]
fn drain_seek_with_track_context_dispatches_seek() {
    let mut app = make_app();
    app.current_playback_context = Some(make_context(true, false));
    apply_effects(vec![ScriptEffect::Seek(30_000)], &mut app);
    assert_eq!(app.dispatched, vec![IoEvent::Seek(30_000)]);
}

#[test]
fn next_and_repeat_go_to_the_web_api_without_a_native_player() {
    let mut app = make_app();
    app.current_playback_context = Some(make_context(true, false));
    apply_effects(
        vec![ScriptEffect::Next, ScriptEffect::CycleRepeat, ScriptEffect::Previous],
        &mut app,
    );
    assert_eq!(app.dispatched, vec![IoEvent::NextTrack, IoEvent::Repeat(RepeatState::Context)]);
    assert_eq!(app.requests, vec![AppRequest::PreviousTrack]);
}

#[test]
fn shuffle_without_any_playback_state_asks_the_runtime() {
    let mut app = make_app();
    apply_effects(vec![ScriptEffect::SetShuffle(true), ScriptEffect::Pause], &mut app);
    assert!(app.dispatched.is_empty());
    assert_eq!(app.requests, vec![AppRequest::ToggleShuffle]);
}

#[test]
fn drain_notify_error_sets_error_flag_on_app() {
    let mut app = make_app();
    apply_effect(ScriptEffect::NotifyError("plugin crashed".to_string(), 6), &mut app);
    let m = app.status_message.as_ref().unwrap();
    assert_eq!(m.text, "plugin crashed");
    assert!(m.is_error);
}

#[test]
fn drain_notify_error_blocks_subsequent_normal_notify() {
    let mut app = make_app();
    apply_effects(
        vec![
            ScriptEffect::NotifyError("error msg".to_string(), 6),
            ScriptEffect::Notify("normal msg".to_string(), 4),
        ],
        &mut app,
    );
    let m = app.status_message.as_ref().unwrap();
    assert_eq!(m.text, "error msg");
    assert!(m.is_error);
}

#[test]
fn applying_set_playbar_segment_inserts_into_map() {
    let mut app = make_app();
    apply_effect(
        ScriptEffect::SetPlaybarSegment {
            plugin: "myplugin".to_string(),
            text: Some("seg text".to_string()),
        },
        &mut app,
    );
    assert_eq!(segment(&app, "myplugin"), Some("seg text"));
}

#[test]
fn applying_set_playbar_segment_nil_removes_from_map() {
    let mut app = make_app();
    app.plugin_playbar_segments.push(("myplugin".to_string(), "old".to_string()));
    apply_effect(
        ScriptEffect::SetPlaybarSegment { plugin: "myplugin".to_string(), text: None },
        &mut app,
    );
    assert!(segment(&app, "myplugin").is_none());
}

#[test]
fn playbar_segment_replaces_the_old_text_once() {
    let mut app = make_app();
    for text in ["one", "two"] {
        apply_effect(
            ScriptEffect::SetPlaybarSegment { plugin: "p".to_string(), text: Some(text.to_string()) },
            &mut app,
        );
    }
    assert_eq!(app.plugin_playbar_segments, vec![("p".to_string(), "two".to_string())]);
}

#[test]
fn applying_show_popup_sets_app_popup_and_resets_scroll() {
    let mut app = make_app();
    app.plugin_popup_scroll = 5;
    let popup = PluginPopup {
        title: "Test".to_string(),
        lines: vec![PopupLine { text: "hello".to_string(), fg: None, bold: false, italic: false }],
    };
    apply_effect(ScriptEffect::ShowPopup(popup.clone()), &mut app);
    assert_eq!(app.plugin_popup, Some(popup));
    assert_eq!(app.plugin_popup_scroll, 0);
}

#[test]
fn applying_set_theme_mutates_app_theme_field() {
    let mut app = make_app();
    apply_effect(
        ScriptEffect::SetTheme(vec![("playbar_text".to_string(), ThemeColor::Magenta)]),
        &mut app,
    );
    assert_eq!(app.user_config.theme.playbar_text, ThemeColor::Magenta);
}

#[test]
fn drain_dispatch_sends_io_event() {
    let mut app = make_app();
    apply_effect(
        ScriptEffect::Dispatch(IoEvent::AddItemToQueue("spotify:track:t1".to_string())),
        &mut app,
    );
    match app.dispatched.first() {
        Some(IoEvent::AddItemToQueue(uri)) => assert_eq!(uri, "spotify:track:t1"),
        _ => panic!("expected AddItemToQueue"),
    }
}

#[test]
fn drain_unfollow_playlist_resolves_current_user() {
    let mut app = make_app();
    app.user = Some(UserProfile { id: "me-123".to_string(), country: None });
    apply_effect(ScriptEffect::UnfollowPlaylist("p1".to_string()), &mut app);
    match app.dispatched.first() {
        Some(IoEvent::UserUnfollowPlaylist(user_id, playlist_id)) => {
            assert_eq!(user_id, "me-123");
            assert_eq!(playlist_id, "p1");
        }
        _ => panic!("expected UserUnfollowPlaylist"),
    }
}

#[test]
fn drain_unfollow_playlist_without_user_sets_error() {
    let mut app = make_app();
    apply_effect(ScriptEffect::UnfollowPlaylist("p1".to_string()), &mut app);
    assert!(app.dispatched.is_empty(), "no IoEvent expected");
    assert!(app.status_message.as_ref().unwrap().is_error);
}

#[test]
fn get_search_results_dispatches_query() {
    let mut app = make_app();
    app.user = Some(UserProfile { id: "me".to_string(), country: Some("SE".to_string()) });
    let req = search_request("daft punk".to_string(), 1).unwrap();
    apply_effect(ScriptEffect::Search(req.arg.unwrap()), &mut app);
    match app.dispatched.first() {
        Some(IoEvent::GetSearchResults(q, country)) => {
            assert_eq!(q, "daft punk");
            assert_eq!(country.as_deref(), Some("SE"));
        }
        _ => panic!("expected GetSearchResults dispatch"),
    }
}

#[test]
fn navigate_queue_pushes_route_and_fetches() {
    let mut app = make_app();
    let effect = navigate_effect("queue".to_string()).unwrap();
    apply_effect(effect, &mut app);
    assert_eq!(app.get_current_route().id, RouteId::Queue);
    assert!(matches!(app.dispatched.first(), Some(IoEvent::GetQueue)));
}

#[test]
fn navigate_miniplayer_toggles() {
    let mut app = make_app();
    apply_effect(ScriptEffect::Navigate("miniplayer".to_string()), &mut app);
    assert_eq!(app.get_current_route().id, RouteId::MiniPlayer);
    apply_effect(ScriptEffect::Navigate("miniplayer".to_string()), &mut app);
    assert_eq!(app.get_current_route().id, RouteId::Home);
}

#[test]
fn back_pops_navigation_stack() {
    let mut app = make_app();
    app.push_navigation_stack(RouteId::Queue, ActiveBlock::Queue);
    apply_effect(ScriptEffect::Back, &mut app);
    assert_eq!(app.get_current_route().id, RouteId::Home);
    apply_effect(ScriptEffect::Back, &mut app);
    assert_eq!(app.get_current_route().id, RouteId::Home);
}

#[test]
fn show_screen_pushes_route_and_close_pops() {
    let mut app = make_app();
    apply_effect(ScriptEffect::ShowScreen("stats".to_string()), &mut app);
    assert_eq!(app.get_current_route().id, RouteId::PluginScreen("stats".to_string()));
    assert_eq!(app.get_current_route().active_block, ActiveBlock::PluginScreen);
    apply_effect(ScriptEffect::CloseScreen("stats".to_string()), &mut app);
    assert!(!matches!(app.get_current_route().id, RouteId::PluginScreen(_)));
}

#[test]
fn close_screen_of_another_screen_is_noop() {
    let mut app = make_app();
    apply_effect(ScriptEffect::ShowScreen("stats".to_string()), &mut app);
    apply_effect(ScriptEffect::CloseScreen("other".to_string()), &mut app);
    assert_eq!(app.get_current_route().id, RouteId::PluginScreen("stats".to_string()));
}

#[test]
fn set_screen_content_keeps_one_entry_per_screen() {
    let mut app = make_app();
    for title in ["A", "B"] {
        apply_effect(
            ScriptEffect::SetScreenContent {
                name: "stats".to_string(),
                content: PluginScreenContent { title: title.to_string(), widgets: vec![] },
            },
            &mut app,
        );
    }
    assert_eq!(app.plugin_screens.len(), 1);
    assert_eq!(app.plugin_screens[0].1.title, "B");
}

#[test]
fn upsert_then_remove_key() {
    let mut v: Vec<(String, u32)> = vec![("a".to_string(), 1), ("b".to_string(), 2)];
    upsert_key(&mut v, "a".to_string(), 3);
    assert_eq!(v, vec![("b".to_string(), 2), ("a".to_string(), 3)]);
    remove_key(&mut v, "b");
    assert_eq!(v, vec![("a".to_string(), 3)]);
}
