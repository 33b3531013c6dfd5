use spotatui::domain::app::{
    ActiveBlock, App, DeviceType, PlaybackContext, RepeatState, Route, RouteId, SpotifyDevice,
};
use spotatui::domain::plugin_api::{
    config_snapshot, device_list, playback_state, route_name, DeviceInfo, Image, PlaybackState,
    PlaylistInfo, PublicUser, SimplifiedPlaylist,
};
use spotatui::domain::user_config::{ThemeColor, UserConfig};

fn make_app() -> App {
    App::new(UserConfig::new())
}

fn make_device(volume: u32) -> SpotifyDevice {
    SpotifyDevice {
        id: Some("dev-abc".to_string()),
        is_active: true,
        is_private_session: false,
        is_restricted: false,
        name: "Living Room TV".to_string(),
        device_type: DeviceType::Tv,
        volume_percent: Some(volume),
    }
}

fn make_playback_context_no_item(
    is_playing: bool,
    shuffle: bool,
    repeat: RepeatState,
    device: SpotifyDevice,
) -> PlaybackContext {
    PlaybackContext { device, repeat_state: repeat, shuffle_state: shuffle, is_playing }
}

fn simplified_playlist(id: &str, name: &str, owner_id: &str, collaborative: bool) -> SimplifiedPlaylist {
    SimplifiedPlaylist {
        id: id.to_string(),
        name: name.to_string(),
        owner: PublicUser { display_name: Some(owner_id.to_string()), id: owner_id.to_string() },
        collaborative,
        public: Some(true),
        total: 5,
        images: Vec::new(),
    }
}

#[test]
fn device_info_maps_all_fields_and_lowercases_kind() {
    let d = make_device(75);
    let info = DeviceInfo::from_rspotify(&d);
    assert_eq!(info.id.as_deref(), Some("dev-abc"));
    assert_eq!(info.name, "Living Room TV");
    assert_eq!(info.kind, "tv");
    assert!(info.is_active);
    assert_eq!(info.volume_percent, Some(75));
}

#[test]
fn device_info_computer_kind() {
    let d = SpotifyDevice {
        id: None,
        is_active: false,
        is_private_session: false,
        is_restricted: false,
        name: "Laptop".to_string(),
        device_type: DeviceType::Computer,
        volume_percent: Some(50),
    };
    let info = DeviceInfo::from_rspotify(&d);
    assert_eq!(info.kind, "computer");
    assert_eq!(info.volume_percent, Some(50));
    assert!(info.id.is_none());
    assert!(!info.is_active);
}

#[test]
fn device_info_volume_clamped_to_u8() {
    let d = SpotifyDevice {
        id: None,
        is_active: false,
        is_private_session: false,
        is_restricted: false,
        name: "X".to_string(),
        device_type: DeviceType::Smartphone,
        volume_percent: Some(100),
    };
    let info = DeviceInfo::from_rspotify(&d);
    assert_eq!(info.volume_percent, Some(100));
}

#[test]
fn device_info_volume_above_100_reads_as_100() {
    let mut d = make_device(300);
    d.device_type = DeviceType::CastAudio;
    let info = DeviceInfo::from_rspotify(&d);
    assert_eq!(info.volume_percent, Some(100));
    assert_eq!(info.kind, "castaudio");
}

#[test]
fn repeat_off_maps_to_string() {
    assert_eq!(PlaybackState::repeat_from(RepeatState::Off), "off");
}

#[test]
fn repeat_track_maps_to_string() {
    assert_eq!(PlaybackState::repeat_from(RepeatState::Track), "track");
}

#[test]
fn repeat_context_maps_to_string() {
    assert_eq!(PlaybackState::repeat_from(RepeatState::Context), "context");
}

#[test]
fn playback_state_returns_none_on_default_app() {
    let app = make_app();
    assert!(playback_state(&app).is_none());
}

#[test]
fn playback_state_with_context_no_item_returns_some_with_track_none() {
    let mut app = make_app();
    let device = make_device(60);
    app.current_playback_context =
        Some(make_playback_context_no_item(true, true, RepeatState::Context, device));

    let state = playback_state(&app).expect("should be Some");
    assert!(state.track.is_none());
    assert!(state.is_playing);
    assert!(state.shuffle);
    assert_eq!(state.repeat, "context");
    assert_eq!(state.volume_percent, Some(60));
    let dev = state.device.as_ref().expect("device should be present");
    assert_eq!(dev.id.as_deref(), Some("dev-abc"));
    assert_eq!(dev.name, "Living Room TV");
    assert_eq!(dev.kind, "tv");
}

#[test]
fn playlist_info_maps_all_fields() {
    let playlist = simplified_playlist("37i9dQZF1DXcBWIGoYBM5M", "Today's Top Hits", "spotify", false);
    let info = PlaylistInfo::from_simplified(&playlist);
    assert_eq!(info.uri, "spotify:playlist:37i9dQZF1DXcBWIGoYBM5M");
    assert_eq!(info.name, "Today's Top Hits");
    assert_eq!(info.owner, "spotify");
    assert_eq!(info.owner_id.as_deref(), Some("spotify"));
    assert_eq!(info.track_count, 5);
}

#[test]
fn playlist_info_falls_back_to_owner_id_when_no_display_name() {
    let playlist = SimplifiedPlaylist {
        id: "37i9dQZF1DXcBWIGoYBM5M".to_string(),
        name: "Chill Vibes".to_string(),
        owner: PublicUser { display_name: None, id: "spotifyuser".to_string() },
        collaborative: false,
        public: None,
        total: 10,
        images: Vec::new(),
    };
    let info = PlaylistInfo::from_simplified(&playlist);
    assert_eq!(info.owner, "spotifyuser");
    assert_eq!(info.owner_id.as_deref(), Some("spotifyuser"));
    assert_eq!(info.track_count, 10);
}

#[test]
fn playlist_info_takes_first_image() {
    let mut playlist = simplified_playlist("p1", "Mix", "me", true);
    playlist.images = vec![
        Image { url: "https://img/1".to_string() },
        Image { url: "https://img/2".to_string() },
    ];
    let info = PlaylistInfo::from_simplified(&playlist);
    assert_eq!(info.image_url.as_deref(), Some("https://img/1"));
    assert!(info.collaborative);
}

#[test]
fn route_name_for_plugin_screen_is_prefixed() {
    let route = Route {
        id: RouteId::PluginScreen("stats".to_string()),
        active_block: ActiveBlock::PluginScreen,
        hovered_block: ActiveBlock::PluginScreen,
    };
    assert_eq!(route_name(&route), "plugin:stats");
}

#[test]
fn device_list_maps_every_device() {
    let mut app = make_app();
    assert!(device_list(&app).is_empty());
    app.devices = Some(vec![make_device(10), make_device(20)]);
    let list = device_list(&app);
    assert_eq!(list.len(), 2);
    assert_eq!(list[1].volume_percent, Some(20));
}

#[test]
fn config_exposes_theme_and_behavior_scalars() {
    let mut app = make_app();
    app.user_config.theme.playbar_text = ThemeColor::Magenta;
    app.user_config.behavior.seek_milliseconds = 12345;
    let c = config_snapshot(&app.user_config);
    let playbar_text = c
        .theme
        .iter()
        .find(|(k, _)| k == "playbar_text")
        .map(|(_, v)| v.clone());
    assert_eq!(
        format!("{}:{}", playbar_text.unwrap(), c.behavior.seek_milliseconds),
        "Magenta:12345"
    );
}

fn route_of(id: RouteId) -> Route {
    Route { id, active_block: ActiveBlock::Empty, hovered_block: ActiveBlock::Library }
}

#[test]
fn route_names_tell_routes_apart() {
    let ids = vec![
        RouteId::Home,
        RouteId::Stats,
        RouteId::Podcasts,
        RouteId::PodcastEpisodes,
        RouteId::Party,
        RouteId::Artist,
        RouteId::Artists,
        RouteId::HelpMenu,
        RouteId::PluginScreen("stats".to_string()),
        RouteId::PluginScreen("queue".to_string()),
    ];
    let names: Vec<String> = ids.iter().map(|id| route_name(&route_of(id.clone()))).collect();
    for i in 0..names.len() {
        for j in 0..names.len() {
            assert_eq!(names[i] == names[j], i == j, "{} vs {}", names[i], names[j]);
        }
        let is_plugin = matches!(ids[i], RouteId::PluginScreen(_));
        assert_eq!(names[i].starts_with("plugin:"), is_plugin);
    }
}

#[test]
fn fresh_app_and_stock_config_start_empty() {
    let config = UserConfig::new();
    assert_eq!(config.keys.right, spotatui::tui::event::Key::Char('l'));
    assert_eq!(config.theme, spotatui::domain::user_config::Theme::standard());
    assert_eq!(config.behavior.seek_milliseconds, 5000);
    let app = App::new(config);
    assert!(app.pending_plugin_screen_keys.is_empty());
    assert!(app.status_message.is_none());
    assert_eq!(app.pending_volume, None);
}
