use spotatui::domain::app::{IoEvent, PluginDataKind, RepeatState};
use spotatui::domain::plugin_api::{PluginWidget, API_VERSION};
use spotatui::domain::user_config::ThemeColor;
use spotatui::infra::scripting::api::{
    check_event_name, create_playlist_effect, http_request_check, navigate_effect,
    notify_effect, parse_screen_widgets, play_context_effect, play_uri_effect,
    playlist_remove_track_effect, popup_effect, require_api, search_request, set_repeat_effect,
    set_theme_effect, storage_namespace, string_action_effect, timer_spec, volume_effect,
    CommandRegistry, LineItem, LinesArg, ScreenRegistry, StringAction, WidgetSpec,
};
use spotatui::infra::scripting::effects::ScriptEffect;
use spotatui::infra::scripting::shared::plugin_id;

fn widget(kind: &str) -> WidgetSpec {
    WidgetSpec {
        kind: Some(kind.to_string()),
        lines: LinesArg::Other("nil".to_string()),
        items: LinesArg::Other("nil".to_string()),
        title: None,
        height: None,
        selected: None,
        ratio_bits: 0,
        label: None,
    }
}

fn styled(text: Option<&str>, fg: Option<&str>, bold: Option<bool>, italic: Option<bool>) -> LineItem {
    LineItem::Styled {
        text: text.map(|t| t.to_string()),
        fg: fg.map(|t| t.to_string()),
        bold,
        italic,
    }
}

#[test]
fn unknown_event_name_is_an_error() {
    assert!(check_event_name("bogus_event").is_err());
    assert!(check_event_name("track_change").is_ok());
}

#[test]
fn require_api_at_or_below_current_succeeds() {
    assert!(require_api(API_VERSION as i64).is_ok());
    assert!(require_api(1).is_ok());
}

#[test]
fn require_api_above_current_fails_with_clear_message() {
    let too_high = API_VERSION + 1;
    let err = require_api(too_high as i64).unwrap_err().message;
    assert!(err.contains(&too_high.to_string()), "message: {err}");
    assert!(err.contains(&API_VERSION.to_string()), "message: {err}");
    assert!(require_api(1).is_ok());
}

#[test]
fn require_api_rejects_non_positive_version() {
    assert!(require_api(0).is_err());
    assert_eq!(
        require_api(-3).unwrap_err().message,
        "spotatui.require_api: version must be a positive integer, got -3"
    );
}

#[test]
fn action_set_volume_clamps_above_100() {
    match volume_effect(250) {
        ScriptEffect::SetVolume(v) => assert_eq!(v, 100),
        _ => panic!("expected SetVolume"),
    }
    match volume_effect(-10) {
        ScriptEffect::SetVolume(v) => assert_eq!(v, 0),
        _ => panic!("expected SetVolume"),
    }
    assert_eq!(volume_effect(42), ScriptEffect::SetVolume(42));
}

#[test]
fn action_notify_default_ttl_is_4() {
    match notify_effect("hi".to_string(), None) {
        ScriptEffect::Notify(m, ttl) => {
            assert_eq!(m, "hi");
            assert_eq!(ttl, 4);
        }
        _ => panic!("expected a Notify effect"),
    }
    assert_eq!(notify_effect("x".to_string(), Some(9)), ScriptEffect::Notify("x".to_string(), 9));
}

#[test]
fn http_get_invalid_scheme_raises() {
    let result = http_request_check("spotatui.http_get", "ftp://example.com", true);
    assert!(result.is_err());
    assert!(result.unwrap_err().message.contains("unsupported URL scheme"));
}

#[test]
fn http_get_no_runtime_raises() {
    let result = http_request_check("spotatui.http_get", "https://example.com", false);
    assert!(result.is_err());
    assert!(result.unwrap_err().message.contains("no tokio runtime available"));
}

#[test]
fn http_get_unparsable_url_reports_parser_message() {
    let err = http_request_check("spotatui.http_get", "not a url", true).unwrap_err().message;
    assert!(err.starts_with("spotatui.http_get: invalid URL 'not a url': "), "got: {err}");
    assert!(http_request_check("spotatui.http_get", "https://example.com/x", true).is_ok());
}

#[test]
fn register_command_happy_path() {
    let mut reg = CommandRegistry::new();
    assert!(reg.register("hello", "myplugin").is_ok());
    assert_eq!(reg.owner("hello").as_deref(), Some("myplugin"));
    assert!(reg.owner("other").is_none());
}

#[test]
fn register_command_empty_name_is_error() {
    let mut reg = CommandRegistry::new();
    assert!(reg.register("", "test").is_err());
}

#[test]
fn register_command_whitespace_name_is_error() {
    let mut reg = CommandRegistry::new();
    assert!(reg.register("bad name", "test").is_err());
}

#[test]
fn register_command_duplicate_is_error() {
    let mut reg = CommandRegistry::new();
    reg.register("cmd", "a").unwrap();
    assert!(reg.register("cmd", "b").is_err());
    assert_eq!(reg.owner("cmd").as_deref(), Some("a"));
}

#[test]
fn popup_plain_string_lines_work() {
    match popup_effect("My Title".to_string(), &LinesArg::Text("single line".to_string())).unwrap() {
        ScriptEffect::ShowPopup(p) => {
            assert_eq!(p.title, "My Title");
            assert_eq!(p.lines.len(), 1);
            assert_eq!(p.lines[0].text, "single line");
            assert!(p.lines[0].fg.is_none());
            assert!(!p.lines[0].bold);
            assert!(!p.lines[0].italic);
        }
        _ => panic!("expected ShowPopup"),
    }
}

#[test]
fn popup_array_of_strings() {
    let lines = LinesArg::Items(vec![
        LineItem::Text("line 1".to_string()),
        LineItem::Text("line 2".to_string()),
    ]);
    match popup_effect("T".to_string(), &lines).unwrap() {
        ScriptEffect::ShowPopup(p) => {
            assert_eq!(p.lines.len(), 2);
            assert_eq!(p.lines[0].text, "line 1");
            assert_eq!(p.lines[1].text, "line 2");
        }
        _ => panic!("expected ShowPopup"),
    }
}

#[test]
fn popup_styled_table_lines() {
    let lines = LinesArg::Items(vec![styled(Some("bold red"), Some("Red"), Some(true), Some(false))]);
    match popup_effect("T".to_string(), &lines).unwrap() {
        ScriptEffect::ShowPopup(p) => {
            assert_eq!(p.lines.len(), 1);
            assert_eq!(p.lines[0].text, "bold red");
            assert_eq!(p.lines[0].fg, Some(ThemeColor::Red));
            assert!(p.lines[0].bold);
            assert!(!p.lines[0].italic);
        }
        _ => panic!("expected ShowPopup"),
    }
}

#[test]
fn popup_bad_color_raises() {
    let lines = LinesArg::Items(vec![styled(Some("hi"), Some("NotAColor"), None, None)]);
    let _ = popup_effect("T".to_string(), &lines);
}

#[test]
fn popup_missing_text_field_raises() {
    let lines = LinesArg::Items(vec![styled(None, None, Some(true), None)]);
    assert!(popup_effect("T".to_string(), &lines).is_err(), "missing 'text' field should be an error");
}

#[test]
fn popup_non_table_non_string_line_raises() {
    let lines = LinesArg::Items(vec![LineItem::Other("number".to_string())]);
    assert!(popup_effect("T".to_string(), &lines).is_err(), "integer line should be an error");
}

#[test]
fn set_theme_valid_field_queues_effect() {
    let pairs = vec![("playbar_text".to_string(), "Magenta".to_string())];
    match set_theme_effect(&pairs).unwrap() {
        ScriptEffect::SetTheme(pairs) => {
            assert_eq!(pairs.len(), 1);
            assert_eq!(pairs[0].0, "playbar_text");
            assert_eq!(pairs[0].1, ThemeColor::Magenta);
        }
        _ => panic!("expected SetTheme"),
    }
}

#[test]
fn set_theme_unknown_field_raises() {
    let pairs = vec![("not_a_field".to_string(), "Red".to_string())];
    assert!(set_theme_effect(&pairs).is_err(), "unknown theme field should raise");
}

#[test]
fn set_theme_bad_color_raises() {
    let pairs = vec![("playbar_text".to_string(), "999, 999, 999".to_string())];
    assert!(set_theme_effect(&pairs).is_err(), "out-of-range RGB should raise");
}

#[test]
fn set_theme_accepts_rgb_triplet() {
    let pairs = vec![("hint".to_string(), " 10, 20,30".to_string())];
    match set_theme_effect(&pairs).unwrap() {
        ScriptEffect::SetTheme(pairs) => assert_eq!(pairs[0].1, ThemeColor::Rgb(10, 20, 30)),
        _ => panic!("expected SetTheme"),
    }
}

#[test]
fn set_repeat_maps_all_modes() {
    for (mode, expected) in [
        ("off", RepeatState::Off),
        ("track", RepeatState::Track),
        ("context", RepeatState::Context),
    ] {
        match set_repeat_effect(mode).unwrap() {
            ScriptEffect::Dispatch(IoEvent::Repeat(state)) => assert_eq!(state, expected),
            _ => panic!("expected Dispatch(Repeat) for mode '{mode}'"),
        }
    }
}

#[test]
fn set_repeat_invalid_mode_raises() {
    assert!(set_repeat_effect("all").is_err());
}

#[test]
fn play_uri_track_uses_uri_list() {
    match play_uri_effect("spotify:track:abc123".to_string()).unwrap() {
        ScriptEffect::Dispatch(IoEvent::StartPlayback(None, Some(uris), None)) => {
            assert_eq!(uris, vec!["spotify:track:abc123".to_string()]);
        }
        _ => panic!("expected StartPlayback with uri list"),
    }
}

#[test]
fn play_uri_album_uses_context() {
    match play_uri_effect("spotify:album:abc123".to_string()).unwrap() {
        ScriptEffect::Dispatch(IoEvent::StartPlayback(Some(ctx), None, None)) => {
            assert_eq!(ctx, "spotify:album:abc123");
        }
        _ => panic!("expected StartPlayback with context"),
    }
}

#[test]
fn play_uri_garbage_raises() {
    assert!(play_uri_effect("not-a-uri".to_string()).is_err());
}

#[test]
fn play_context_carries_offset() {
    match play_context_effect("spotify:playlist:p1".to_string(), Some(5)).unwrap() {
        ScriptEffect::Dispatch(IoEvent::StartPlayback(Some(ctx), None, Some(offset))) => {
            assert_eq!(ctx, "spotify:playlist:p1");
            assert_eq!(offset, 5);
        }
        _ => panic!("expected StartPlayback with context + offset"),
    }
}

#[test]
fn play_context_rejects_track_uri() {
    assert!(play_context_effect("spotify:track:t1".to_string(), None).is_err());
}

#[test]
fn add_to_queue_queues_dispatch() {
    match string_action_effect(StringAction::AddToQueue, "spotify:track:t1".to_string()).unwrap() {
        ScriptEffect::Dispatch(IoEvent::AddItemToQueue(uri)) => assert_eq!(uri, "spotify:track:t1"),
        _ => panic!("expected AddItemToQueue dispatch"),
    }
}

#[test]
fn create_playlist_with_uris() {
    let uris = vec!["spotify:track:a".to_string(), "spotify:track:b".to_string()];
    match create_playlist_effect("Mix".to_string(), uris).unwrap() {
        ScriptEffect::Dispatch(IoEvent::CreateNewPlaylist(name, uris)) => {
            assert_eq!(name, "Mix");
            assert_eq!(uris.len(), 2);
        }
        _ => panic!("expected CreateNewPlaylist dispatch"),
    }
}

#[test]
fn create_playlist_empty_name_raises() {
    assert!(create_playlist_effect("  ".to_string(), vec![]).is_err());
}

#[test]
fn playlist_remove_track_requires_position() {
    match playlist_remove_track_effect("p1".to_string(), "t1".to_string(), 0).unwrap() {
        ScriptEffect::Dispatch(IoEvent::RemoveTrackFromPlaylistAtPosition(p, t, pos)) => {
            assert_eq!(p, "p1");
            assert_eq!(t, "t1");
            assert_eq!(pos, 0);
        }
        _ => panic!("expected RemoveTrackFromPlaylistAtPosition dispatch"),
    }
    assert!(playlist_remove_track_effect("p1".to_string(), "t1".to_string(), -1).is_err());
}

#[test]
fn transfer_playback_does_not_persist_device() {
    match string_action_effect(StringAction::TransferPlayback, "dev-1".to_string()).unwrap() {
        ScriptEffect::Dispatch(IoEvent::TransferPlaybackToDevice(id, persist)) => {
            assert_eq!(id, "dev-1");
            assert!(!persist);
        }
        _ => panic!("expected TransferPlaybackToDevice dispatch"),
    }
}

#[test]
fn follow_and_save_actions_map_to_events() {
    let run = |a: StringAction, v: &str| string_action_effect(a, v.to_string()).unwrap();
    assert!(matches!(
        run(StringAction::ToggleSaveTrack, "spotify:track:t1"),
        ScriptEffect::Dispatch(IoEvent::ToggleSaveTrack(_))
    ));
    assert!(matches!(
        run(StringAction::SaveAlbum, "a1"),
        ScriptEffect::Dispatch(IoEvent::CurrentUserSavedAlbumAdd(_))
    ));
    assert!(matches!(
        run(StringAction::UnsaveAlbum, "a1"),
        ScriptEffect::Dispatch(IoEvent::CurrentUserSavedAlbumDelete(_))
    ));
    assert!(matches!(
        run(StringAction::SaveShow, "s1"),
        ScriptEffect::Dispatch(IoEvent::CurrentUserSavedShowAdd(_))
    ));
    assert!(matches!(
        run(StringAction::UnsaveShow, "s1"),
        ScriptEffect::Dispatch(IoEvent::CurrentUserSavedShowDelete(_))
    ));
    match run(StringAction::FollowArtist, "ar1") {
        ScriptEffect::Dispatch(IoEvent::UserFollowArtists(ids)) => {
            assert_eq!(ids, vec!["ar1".to_string()]);
        }
        _ => panic!("expected UserFollowArtists dispatch"),
    }
    assert!(matches!(
        run(StringAction::UnfollowArtist, "ar1"),
        ScriptEffect::Dispatch(IoEvent::UserUnfollowArtists(_))
    ));
    assert!(matches!(
        run(StringAction::FollowPlaylist, "p1"),
        ScriptEffect::Dispatch(IoEvent::UserFollowPlaylist(_, _, None))
    ));
    assert!(matches!(run(StringAction::UnfollowPlaylist, "p1"), ScriptEffect::UnfollowPlaylist(_)));
}

#[test]
fn empty_string_argument_raises() {
    assert!(string_action_effect(StringAction::AddToQueue, "".to_string()).is_err());
}

#[test]
fn get_search_results_empty_query_raises() {
    assert!(search_request("".to_string(), 1).is_err());
}

#[test]
fn search_request_carries_query_and_token() {
    let req = search_request("daft punk".to_string(), 7).unwrap();
    assert_eq!(req.token, 7);
    assert_eq!(req.kind, PluginDataKind::Search);
    assert_eq!(req.arg.as_deref(), Some("daft punk"));
}

#[test]
fn negative_ms_raises() {
    assert!(timer_spec("set_timeout", -5, false).is_err());
    assert!(timer_spec("set_interval", 0, true).is_err());
    let t = timer_spec("set_interval", 250, true).unwrap();
    assert_eq!(t.delay_ms, 250);
    assert_eq!(t.interval_ms, Some(250));
    assert_eq!(timer_spec("set_timeout", 0, false).unwrap().interval_ms, None);
}

#[test]
fn plugin_id_strips_lua_suffix_and_sanitizes() {
    assert_eq!(plugin_id("stats.lua"), "stats");
    assert_eq!(plugin_id("my-plugin"), "my-plugin");
    assert_eq!(plugin_id("weird name!.lua"), "weird_name_");
    assert_eq!(plugin_id("dir.plugin"), "dir_plugin");
    assert_eq!(plugin_id("под.lua"), "___");
}

#[test]
fn storage_outside_plugin_context_is_refused() {
    assert!(storage_namespace("").is_err());
    assert_eq!(storage_namespace("notes.lua").unwrap(), "notes");
}

#[test]
fn navigate_unknown_target_raises() {
    let err = navigate_effect("narnia".to_string()).unwrap_err().message;
    assert!(err.contains("unknown target 'narnia'"), "got: {err}");
    assert!(err.contains("home, queue"), "got: {err}");
}

fn register_stats(reg: &mut ScreenRegistry) {
    reg.register("stats", "stats.lua", Some("Stats".to_string()), true).unwrap();
}

#[test]
fn set_screen_rejects_unknown_widget_type_and_bad_selected() {
    assert!(parse_screen_widgets(&vec![widget("table")]).is_err());
    let mut list = widget("list");
    list.items = LinesArg::Items(vec![LineItem::Text("x".to_string())]);
    list.selected = Some(0);
    assert!(parse_screen_widgets(&vec![list]).is_err());
}

#[test]
fn set_screen_publishes_widgets() {
    let mut para = widget("paragraph");
    para.lines = LinesArg::Items(vec![
        LineItem::Text("hello".to_string()),
        styled(Some("styled"), None, Some(true), None),
    ]);
    para.height = Some(4);
    let mut list = widget("list");
    list.title = Some("Songs".to_string());
    list.items = LinesArg::Items(vec![
        LineItem::Text("one".to_string()),
        LineItem::Text("two".to_string()),
    ]);
    list.selected = Some(2);
    let mut gauge = widget("gauge");
    gauge.ratio_bits = 1.7f64.clamp(0.0, 1.0).to_bits();
    gauge.label = Some("70%".to_string());
    let widgets = parse_screen_widgets(&vec![para, list, gauge]).unwrap();
    assert_eq!(widgets.len(), 3);
    match &widgets[0] {
        PluginWidget::Paragraph { lines, height } => {
            assert_eq!(lines.len(), 2);
            assert!(lines[1].bold);
            assert_eq!(*height, Some(4));
        }
        _ => panic!("expected paragraph widget"),
    }
    match &widgets[1] {
        PluginWidget::List { title, items, selected, .. } => {
            assert_eq!(title.as_deref(), Some("Songs"));
            assert_eq!(items.len(), 2);
            assert_eq!(*selected, Some(1));
        }
        _ => panic!("expected list widget"),
    }
    match &widgets[2] {
        PluginWidget::Gauge { ratio_bits, label } => {
            assert_eq!(f64::from_bits(*ratio_bits), 1.0, "ratio must be clamped");
            assert_eq!(label.as_deref(), Some("70%"));
        }
        _ => panic!("expected gauge widget"),
    }
}

#[test]
fn set_screen_unregistered_or_foreign_raises() {
    let mut reg = ScreenRegistry::new();
    register_stats(&mut reg);
    assert!(reg.verify_owner("set_screen", "nope", "stats.lua").is_err());
    let err = reg.verify_owner("show_screen", "stats", "intruder.lua").unwrap_err().message;
    assert!(err.contains("belongs to plugin"), "got: {err}");
    assert_eq!(reg.verify_owner("set_screen", "stats", "stats.lua").unwrap(), "Stats");
}

#[test]
fn duplicate_screen_name_raises() {
    let mut reg = ScreenRegistry::new();
    register_stats(&mut reg);
    assert!(reg.register("stats", "other.lua", None, true).is_err());
}

#[test]
fn register_screen_requires_on_key() {
    let mut reg = ScreenRegistry::new();
    assert!(reg.register("stats", "stats.lua", Some("T".to_string()), false).is_err());
}

#[test]
fn http_scheme_message_names_the_parsed_scheme() {
    let err = http_request_check("spotatui.http_get", "ftp://example.com/file", true).unwrap_err().message;
    assert_eq!(err, "spotatui.http_get: unsupported URL scheme 'ftp'");
    let err = http_request_check("spotatui.http_post", "HTTPS-X://h", true);
    assert!(err.is_err());
    assert!(http_request_check("spotatui.http_post", "HTTPS://example.com", true).is_ok());
}
