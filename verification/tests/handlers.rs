use spotatui::domain::app::{
    ActiveBlock, App, AppRequest, IoEvent, RecapPromptState, RouteId, ScrollableResultPages,
};
use spotatui::domain::pagination::Paged;
use spotatui::domain::plugin_api::EpisodeInfo;
use spotatui::domain::user_config::{KeyBindings, UserConfig};
use spotatui::infra::history::{RankedEntry, RecapPeriod, StatsData};
use spotatui::tui::event::Key;
use spotatui::tui::handlers::common_key_events::{
    down_event, handle_left_event, handle_right_event, on_down_press_handler,
    on_middle_press_handler, on_up_press_handler,
};
use spotatui::tui::handlers::library::library_options;
use spotatui::tui::handlers::plugin_screen::plugin_key_string;
use spotatui::tui::handlers::recap_prompt::recap_open_failed;
use spotatui::tui::handlers::{episode_table, library, plugin_screen, recap_prompt, stats};

fn app_with_selection(index: usize) -> App {
    let mut app = App::new(UserConfig::new());
    app.library.selected_index = index;
    app
}

#[test]
fn enter_on_stats_entry_opens_stats_screen() {
    let index = library_options().iter().position(|o| o == "Stats").unwrap();
    let mut app = app_with_selection(index);
    library::handler(Key::Enter, &mut app);
    assert_eq!(app.get_current_route().id, RouteId::Stats);
    assert!(app.stats_loading);
    assert!(matches!(app.dispatched.first(), Some(IoEvent::LoadListeningStats(_))));
}

#[test]
fn enter_on_liked_songs_still_fetches_saved_tracks() {
    let index = library_options().iter().position(|o| o == "Liked Songs").unwrap();
    let mut app = app_with_selection(index);
    library::handler(Key::Enter, &mut app);
    assert_eq!(app.get_current_route().id, RouteId::TrackTable);
    assert!(matches!(app.dispatched.first(), Some(IoEvent::GetCurrentSavedTracks(None))));
}

#[test]
fn enter_on_local_files_switches_source_and_saves() {
    let index = library_options().iter().position(|o| o == "Local Files").unwrap();
    let mut app = app_with_selection(index);
    library::handler(Key::Enter, &mut app);
    assert_eq!(app.get_current_route().id, RouteId::LocalBrowser);
    assert_eq!(app.requests, vec![AppRequest::SaveConfig]);
    assert_eq!(app.selected_playlist_index, Some(0));
    assert!(matches!(app.dispatched.first(), Some(IoEvent::GetLocalPlaylists)));
}

#[test]
fn library_selection_wraps_both_ways() {
    let mut app = app_with_selection(0);
    library::handler(Key::Up, &mut app);
    assert_eq!(app.library.selected_index, library_options().len() - 1);
    library::handler(Key::Char('j'), &mut app);
    assert_eq!(app.library.selected_index, 0);
    library::handler(Key::Char('M'), &mut app);
    assert_eq!(app.library.selected_index, 4);
}

#[test]
fn key_on_plugin_screen_lands_in_pending_queue() {
    let mut app = App::new(UserConfig::new());
    app.push_navigation_stack(RouteId::PluginScreen("stats".to_string()), ActiveBlock::PluginScreen);
    plugin_screen::handler(Key::Char('a'), &mut app);
    plugin_screen::handler(Key::Ctrl('x'), &mut app);
    plugin_screen::handler(Key::Enter, &mut app);
    assert_eq!(
        app.pending_plugin_screen_keys,
        vec![
            ("stats".to_string(), "a".to_string()),
            ("stats".to_string(), "ctrl-x".to_string()),
            ("stats".to_string(), "enter".to_string()),
        ]
    );
}

#[test]
fn esc_pops_back_out_of_plugin_screen() {
    let mut app = App::new(UserConfig::new());
    app.push_navigation_stack(RouteId::PluginScreen("stats".to_string()), ActiveBlock::PluginScreen);
    plugin_screen::handler(Key::Esc, &mut app);
    assert!(app.pending_plugin_screen_keys.is_empty());
    assert!(!matches!(app.get_current_route().id, RouteId::PluginScreen(_)));
}

#[test]
fn plugin_screen_scroll_saturates() {
    let mut app = App::new(UserConfig::new());
    app.push_navigation_stack(RouteId::PluginScreen("s".to_string()), ActiveBlock::PluginScreen);
    plugin_screen::handler(Key::PageUp, &mut app);
    assert_eq!(app.plugin_screen_scroll, 0);
    app.plugin_screen_scroll = u16::MAX - 2;
    plugin_screen::handler(Key::PageDown, &mut app);
    assert_eq!(app.plugin_screen_scroll, u16::MAX);
    plugin_screen::handler(Key::Unknown, &mut app);
    assert!(app.pending_plugin_screen_keys.is_empty());
}

#[test]
fn plugin_key_names() {
    assert_eq!(plugin_key_string(Key::Char(' ')), "space");
    assert_eq!(plugin_key_string(Key::Alt('q')), "alt-q");
    assert_eq!(plugin_key_string(Key::Delete), "del");
    assert_eq!(plugin_key_string(Key::F12), "f12");
    assert_eq!(plugin_key_string(Key::Unknown), "");
}

fn app_with_prompt() -> App {
    let mut app = App::new(UserConfig::new());
    app.recap_prompt = Some(RecapPromptState { path: "recap.html".to_string(), listens: 42 });
    app.push_navigation_stack(RouteId::RecapPrompt, ActiveBlock::RecapPrompt);
    app
}

#[test]
fn d_disables_the_prompt_and_pops() {
    let mut app = app_with_prompt();
    recap_prompt::handler(Key::Char('d'), &mut app);
    assert!(!app.user_config.behavior.enable_monthly_recap_prompt);
    assert!(app.recap_prompt.is_none());
    assert_ne!(app.get_current_route().active_block, ActiveBlock::RecapPrompt);
    assert_eq!(app.requests, vec![AppRequest::SaveConfig]);
    assert_eq!(
        app.status_message.as_ref().unwrap().text,
        "Monthly recap prompt disabled (re-enable in Settings)"
    );
}

#[test]
fn other_keys_keep_the_prompt_open() {
    let mut app = app_with_prompt();
    recap_prompt::handler(Key::Char('x'), &mut app);
    assert!(app.recap_prompt.is_some());
    assert_eq!(app.get_current_route().active_block, ActiveBlock::RecapPrompt);
}

#[test]
fn enter_opens_the_recap_and_pops() {
    let mut app = app_with_prompt();
    recap_prompt::handler(Key::Enter, &mut app);
    assert!(app.recap_prompt.is_none());
    assert_eq!(app.requests, vec![AppRequest::OpenInBrowser("recap.html".to_string())]);
    assert_eq!(app.get_current_route().id, RouteId::Home);
    recap_open_failed(&mut app, "recap.html");
    let m = app.status_message.as_ref().unwrap();
    assert_eq!(m.text, "Recap saved at recap.html (couldn't open browser)");
    assert_eq!(m.ttl_secs, 8);
}

fn app_with_track(uri: Option<String>) -> App {
    let mut app = App::new(UserConfig::new());
    app.stats_data = Some(StatsData {
        total_plays: 1,
        total_time_ms: 60_000,
        top_tracks: vec![RankedEntry {
            display: "Song - Artist".to_string(),
            detail: "1 plays · 1m".to_string(),
            value: 60_000,
            uri,
        }],
        top_artists: vec![],
        top_albums: vec![],
        days: vec![],
    });
    app
}

#[test]
fn cycling_period_dispatches_stats_load() {
    let mut app = app_with_track(None);
    stats::handler(Key::Char(']'), &mut app);
    assert_eq!(app.stats_period, RecapPeriod::Month);
    assert!(app.stats_loading);
    assert!(app.stats_data.is_none());
    assert!(matches!(app.dispatched.first(), Some(IoEvent::LoadListeningStats(RecapPeriod::Month))));
}

#[test]
fn cycling_back_wraps_to_all_time() {
    let mut app = app_with_track(None);
    stats::handler(Key::Char('['), &mut app);
    assert_eq!(app.stats_period, RecapPeriod::AllTime);
    stats::handler(Key::Char(']'), &mut app);
    assert_eq!(app.stats_period, RecapPeriod::Week);
}

#[test]
fn enter_plays_selected_spotify_track() {
    let mut app = app_with_track(Some("spotify:track:abc".to_string()));
    stats::handler(Key::Enter, &mut app);
    assert!(matches!(
        app.dispatched.first(),
        Some(IoEvent::StartPlayback(None, Some(uris), Some(0))) if *uris == vec!["spotify:track:abc".to_string()]
    ));
}

#[test]
fn enter_on_unplayable_entry_shows_status_message() {
    let mut app = app_with_track(None);
    stats::handler(Key::Enter, &mut app);
    assert!(app.dispatched.is_empty());
    assert!(app.status_message.is_some());
}

#[test]
fn right_from_sidebar_refocuses_stats_content() {
    let mut app = app_with_track(None);
    app.push_navigation_stack(RouteId::Stats, ActiveBlock::Stats);
    handle_left_event(&mut app);
    handle_right_event(&mut app);
    assert_eq!(app.get_current_route().active_block, ActiveBlock::Stats);
}

fn episode(id: &str, uri: Option<&str>) -> EpisodeInfo {
    EpisodeInfo {
        id: Some(id.to_string()),
        uri: uri.map(|u| u.to_string()),
        name: id.to_string(),
        duration_ms: 1,
        show_name: "Show".to_string(),
        description: String::new(),
        release_date: String::new(),
        is_playable: true,
        resume_point: None,
        image_url: None,
    }
}

fn app_with_episodes(items: Vec<EpisodeInfo>) -> App {
    let mut app = App::new(UserConfig::new());
    let page = Paged { items, ..Paged::default() };
    app.library.show_episodes = ScrollableResultPages { index: 0, pages: vec![page] };
    app
}

#[test]
fn episode_enter_counts_only_rows_with_uri() {
    let mut app = app_with_episodes(vec![
        episode("a", Some("spotify:episode:a")),
        episode("b", None),
        episode("c", Some("spotify:episode:c")),
    ]);
    app.episode_list_index = 2;
    episode_table::handler(Key::Enter, &mut app);
    match app.dispatched.first() {
        Some(IoEvent::StartPlayback(None, Some(uris), offset)) => {
            assert_eq!(uris, &vec!["spotify:episode:a".to_string(), "spotify:episode:c".to_string()]);
            assert_eq!(*offset, Some(1));
        }
        _ => panic!("expected StartPlayback"),
    }
}

#[test]
fn episode_reverse_keeps_selected_episode() {
    let mut app = app_with_episodes(vec![episode("a", None), episode("b", None), episode("c", None)]);
    app.episode_list_index = 0;
    episode_table::handler(Key::Char('S'), &mut app);
    let names: Vec<&str> = app.library.show_episodes.pages[0].items.iter().map(|e| e.name.as_str()).collect();
    assert_eq!(names, vec!["c", "b", "a"]);
    assert_eq!(app.episode_list_index, 2);
}

#[test]
fn episode_jumps_and_moves() {
    let mut app = app_with_episodes(vec![episode("a", None), episode("b", None), episode("c", None), episode("d", None)]);
    episode_table::handler(Key::Ctrl('e'), &mut app);
    assert_eq!(app.episode_list_index, 3);
    episode_table::handler(Key::Down, &mut app);
    assert_eq!(app.episode_list_index, 0);
    episode_table::handler(Key::Char('M'), &mut app);
    assert_eq!(app.episode_list_index, 1);
    episode_table::handler(Key::Char('L'), &mut app);
    assert_eq!(app.episode_list_index, 3);
    episode_table::handler(Key::Ctrl('a'), &mut app);
    assert_eq!(app.episode_list_index, 0);
    episode_table::handler(Key::Char('s'), &mut app);
    assert_eq!(app.requests, vec![AppRequest::FollowShow(ActiveBlock::EpisodeTable)]);
}

#[test]
fn list_moves_wrap_and_undo_each_other() {
    let rows = [1, 2, 3];
    assert_eq!(on_down_press_handler(&rows, Some(2)), 0);
    assert_eq!(on_up_press_handler(&rows, Some(0)), 2);
    for i in 0..3 {
        assert_eq!(on_up_press_handler(&rows, Some(on_down_press_handler(&rows, Some(i)))), i);
    }
    assert_eq!(on_middle_press_handler(&[1, 2, 3, 4]), 1);
    assert_eq!(on_middle_press_handler(&[1, 2, 3, 4, 5]), 2);
    let empty: [u8; 0] = [];
    assert_eq!(on_down_press_handler(&empty, Some(3)), 0);
    assert_eq!(on_up_press_handler(&empty, Some(3)), 0);
}

#[test]
fn configured_keys_count_as_moves() {
    let keys: KeyBindings = UserConfig::new().keys;
    assert!(down_event(Key::Char('j'), &keys));
    assert!(down_event(Key::Down, &keys));
    assert!(down_event(Key::Ctrl('n'), &keys));
    assert!(!down_event(Key::Char('k'), &keys));
}

#[test]
fn episode_reverse_twice_restores_order_and_selection() {
    let mut app = app_with_episodes(vec![episode("a", None), episode("b", None), episode("c", None)]);
    app.episode_list_index = 1;
    episode_table::handler(Key::Char('S'), &mut app);
    episode_table::handler(Key::Char('S'), &mut app);
    let names: Vec<&str> = app.library.show_episodes.pages[0].items.iter().map(|e| e.name.as_str()).collect();
    assert_eq!(names, vec!["a", "b", "c"]);
    assert_eq!(app.episode_list_index, 1);
}
