use spotatui::domain::app::{App, IoEvent};
use spotatui::domain::pagination::Paged;
use spotatui::domain::plugin_api::{AlbumInfo, ArtistRef, ShowInfo, TrackInfo};
use spotatui::domain::user_config::UserConfig;
use spotatui::infra::network::search::{
    apply_playlist_track_search, apply_search_results, clamp_selected_index, page_len,
    search_query,
};

fn page_of(len: usize) -> Option<Paged<u32>> {
    Some(Paged { items: (0..len as u32).collect(), total: len as u32, ..Default::default() })
}

#[test]
fn clamp_selects_last_valid_index_when_new_page_is_shorter() {
    let mut index = Some(20);
    let new_page = page_of(2);
    clamp_selected_index(&mut index, page_len(&new_page));
    assert_eq!(index, Some(1));
}

#[test]
fn clamp_resets_to_none_when_new_page_is_empty() {
    let mut index = Some(20);
    let empty_page: Option<Paged<u32>> = page_of(0);
    clamp_selected_index(&mut index, page_len(&empty_page));
    assert_eq!(index, None);

    let mut index = Some(0);
    let none_page: Option<Paged<u32>> = None;
    clamp_selected_index(&mut index, page_len(&none_page));
    assert_eq!(index, None);
}

#[test]
fn clamp_leaves_in_range_index_untouched() {
    let mut index = Some(1);
    let new_page = page_of(5);
    clamp_selected_index(&mut index, page_len(&new_page));
    assert_eq!(index, Some(1));
}

#[test]
fn clamp_leaves_none_as_none_when_page_is_nonempty() {
    let mut index = None;
    let new_page = page_of(5);
    clamp_selected_index(&mut index, page_len(&new_page));
    assert_eq!(index, None);
}

fn track(id: Option<&str>) -> TrackInfo {
    TrackInfo {
        uri: None,
        name: "t".to_string(),
        artists: vec![],
        album: String::new(),
        duration_ms: 0,
        id: id.map(|s| s.to_string()),
        album_id: None,
        artist_refs: vec![],
        is_playable: true,
        is_local: false,
        track_number: 0,
        explicit: false,
        image_url: None,
    }
}

fn album(id: &str, artists: &[Option<&str>]) -> AlbumInfo {
    AlbumInfo {
        id: Some(id.to_string()),
        uri: None,
        name: id.to_string(),
        artists: artists
            .iter()
            .map(|a| ArtistRef { id: a.map(|s| s.to_string()), name: String::new() })
            .collect(),
        album_type: None,
        release_date: None,
        total_tracks: None,
        image_url: None,
        tracks: vec![],
    }
}

fn show(id: &str) -> ShowInfo {
    ShowInfo {
        id: Some(id.to_string()),
        uri: None,
        name: id.to_string(),
        description: String::new(),
        publisher: String::new(),
        image_url: None,
    }
}

fn paged<T>(items: Vec<T>) -> Paged<T> {
    Paged { items, ..Paged::default() }
}

#[test]
fn search_results_queue_checks_and_clamp_selection() {
    let mut app = App::new(UserConfig::new());
    app.search_results.selected_tracks_index = Some(9);
    app.search_results.selected_playlists_index = Some(3);
    let r = apply_search_results(
        &mut app,
        Ok(paged(vec![track(Some("t1")), track(None), track(Some("t3"))])),
        Ok(paged(vec![album("al1", &[Some("ar1"), None]), album("al2", &[Some("ar2")])])),
        Ok(paged(vec![show("s1")])),
        None,
        None,
    );
    assert!(r.is_ok());
    assert_eq!(
        app.dispatched,
        vec![
            IoEvent::CurrentUserSavedTracksContains(vec!["t1".to_string(), "t3".to_string()]),
            IoEvent::UserArtistFollowCheck(vec!["ar1".to_string(), "ar2".to_string()]),
            IoEvent::CurrentUserSavedAlbumsContains(vec!["al1".to_string(), "al2".to_string()]),
            IoEvent::CurrentUserSavedShowsContains(vec!["s1".to_string()]),
        ]
    );
    assert_eq!(app.search_results.selected_tracks_index, Some(2));
    assert_eq!(app.search_results.selected_playlists_index, None);
    assert_eq!(app.search_generation, 1);
    assert_eq!(app.search_results.tracks.as_ref().unwrap().items.len(), 3);
}

#[test]
fn first_failed_required_search_is_reported_and_nothing_changes() {
    let mut app = App::new(UserConfig::new());
    let r = apply_search_results(
        &mut app,
        Ok(paged(vec![track(Some("t1"))])),
        Err("albums down".to_string()),
        Err("shows down".to_string()),
        None,
        None,
    );
    assert_eq!(r, Err("albums down".to_string()));
    assert!(app.dispatched.is_empty());
    assert!(app.search_results.tracks.is_none());
    assert_eq!(app.search_generation, 0);
}

#[test]
fn playlist_track_search_keeps_tracks_with_ids() {
    let mut app = App::new(UserConfig::new());
    app.create_playlist_selected_result = 4;
    let r = apply_playlist_track_search(&mut app, Ok(vec![track(Some("a")), track(None), track(Some("c"))]));
    assert!(r.is_ok());
    let ids: Vec<Option<String>> = app.create_playlist_search_results.iter().map(|t| t.id.clone()).collect();
    assert_eq!(ids, vec![Some("a".to_string()), Some("c".to_string())]);
    assert_eq!(app.create_playlist_selected_result, 0);
    assert_eq!(apply_playlist_track_search(&mut app, Err("x".to_string())), Err("x".to_string()));
    assert_eq!(app.create_playlist_search_results.len(), 2);
}

#[test]
fn search_query_parameters() {
    let q = search_query("daft punk", "album", 20);
    let expected: Vec<(String, String)> = [("q", "daft punk"), ("type", "album"), ("limit", "20"), ("offset", "0")]
        .iter()
        .map(|(k, v)| (k.to_string(), v.to_string()))
        .collect();
    assert_eq!(q, expected);
}
