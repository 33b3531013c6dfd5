//! Keys on the library list of the sidebar.

use vstd::prelude::*;

use crate::domain::app::{nav_pushed, ActiveBlock, App, AppRequest, IoEvent, RouteId};
use crate::domain::user_config::{BehaviorConfig, KeyBindings, Source, UserConfig};
use crate::text::owned;
use crate::tui::event::Key;
use crate::tui::handlers::common_key_events::{
    down_event, handle_right_event, high_event, index_after_down, index_after_up, is_down_key,
    is_right_key, is_up_key, low_event, middle_event, middle_index, on_down_press_handler,
    on_high_press_handler, on_low_press_handler, on_middle_press_handler, on_up_press_handler,
    right_event, right_handled, up_event,
};

verus! {

/// The entries of the library list, in order.
pub open spec fn library_option_names() -> Seq<Seq<char>> {
    seq![
        "Discover"@,
        "Recently Played"@,
        "Friends"@,
        "Stats"@,
        "Liked Songs"@,
        "Albums"@,
        "Artists"@,
        "Podcasts"@,
        "Local Files"@,
    ]
}

/// The entries of the library list, in order.
pub fn library_options() -> (v: Vec<String>)
    ensures
        v@.map_values(|s: String| s@) == library_option_names(),
{
    let mut v: Vec<String> = Vec::new();
    v.push(owned("Discover"));
    v.push(owned("Recently Played"));
    v.push(owned("Friends"));
    v.push(owned("Stats"));
    v.push(owned("Liked Songs"));
    v.push(owned("Albums"));
    v.push(owned("Artists"));
    v.push(owned("Podcasts"));
    v.push(owned("Local Files"));
    assert(v@.map_values(|s: String| s@) =~= library_option_names());
    v
}

/// `b` is `a` (already adjusted by the caller) with `events` sent to the
/// network task and the screen `id` opened.
pub open spec fn opened(a: App, b: App, events: Seq<IoEvent>, id: RouteId, block: ActiveBlock) -> bool {
    &&& b == App { dispatched: b.dispatched, navigation_stack: b.navigation_stack, ..a }
    &&& b.dispatched@ == a.dispatched@ + events
    &&& b.navigation_stack@ == nav_pushed(a.navigation_stack@, id, block)
}

/// The loads the friends screen starts: the friend code when none is known,
/// the friends list when it is empty and not already loading.
pub open spec fn friends_loads(a: App) -> Seq<IoEvent> {
    (if a.friend_code is None {
        seq![IoEvent::GetFriendCode]
    } else {
        Seq::empty()
    }) + (if a.friends@.len() == 0 && !a.friends_loading {
        seq![IoEvent::GetFriends]
    } else {
        Seq::empty()
    })
}

/// `a` switched to the local source, persisted in the configuration.
pub open spec fn switched_to_local(a: App) -> App {
    App {
        active_source: Source::Local,
        user_config: UserConfig {
            behavior: BehaviorConfig { active_source: Source::Local, ..a.user_config.behavior },
            ..a.user_config
        },
        selected_playlist_index: Some(0),
        local_playlists_index: 0,
        ..a
    }
}

/// Opening the friends screen also loads what it lacks and marks the
/// friends list as refreshed now.
pub open spec fn friends_opened(a: App, b: App) -> bool {
    &&& opened(App { requests: b.requests, ..a }, b, friends_loads(a), RouteId::Friends, ActiveBlock::Friends)
    &&& b.requests@ == a.requests@.push(AppRequest::MarkFriendsRefreshed)
}

/// Opening the stats screen starts loading the current period's stats.
pub open spec fn stats_opened(a: App, b: App) -> bool {
    opened(
        App { stats_loading: true, ..a },
        b,
        seq![IoEvent::LoadListeningStats(a.stats_period)],
        RouteId::Stats,
        ActiveBlock::Stats,
    )
}

/// Opening liked songs resets the saved-tracks view and fetches its first page.
pub open spec fn liked_songs_opened(a: App, b: App) -> bool {
    &&& opened(
        App { requests: b.requests, ..a },
        b,
        seq![IoEvent::GetCurrentSavedTracks(None)],
        RouteId::TrackTable,
        ActiveBlock::TrackTable,
    )
    &&& b.requests@ == a.requests@.push(AppRequest::ResetSavedTracksView)
}

/// Opening local files switches to the local source (saving the choice),
/// selects the first folder and lists the local playlists.
pub open spec fn local_files_opened(a: App, b: App) -> bool {
    &&& opened(
        switched_to_local(App { requests: b.requests, ..a }),
        b,
        seq![IoEvent::GetLocalPlaylists],
        RouteId::LocalBrowser,
        ActiveBlock::LocalBrowser,
    )
    &&& b.requests@ == a.requests@.push(AppRequest::SaveConfig)
}

/// What Enter on the selected library entry does.
pub open spec fn library_entered(a: App, b: App) -> bool {
    let i = a.library.selected_index;
    if i == 0 {
        opened(a, b, Seq::empty(), RouteId::Discover, ActiveBlock::Discover)
    } else if i == 1 {
        opened(a, b, seq![IoEvent::GetRecentlyPlayed], RouteId::RecentlyPlayed, ActiveBlock::RecentlyPlayed)
    } else if i == 2 {
        friends_opened(a, b)
    } else if i == 3 {
        stats_opened(a, b)
    } else if i == 4 {
        liked_songs_opened(a, b)
    } else if i == 5 {
        opened(a, b, seq![IoEvent::GetCurrentUserSavedAlbums(None)], RouteId::AlbumList, ActiveBlock::AlbumList)
    } else if i == 6 {
        opened(a, b, seq![IoEvent::GetFollowedArtists(None)], RouteId::Artists, ActiveBlock::Artists)
    } else if i == 7 {
        opened(a, b, seq![IoEvent::GetCurrentUserSavedShows(None)], RouteId::Podcasts, ActiveBlock::Podcasts)
    } else if i == 8 {
        local_files_opened(a, b)
    } else {
        b == a
    }
}

/// `b` is `a` with only the selected library entry changed, to `i`.
pub open spec fn entry_selected(a: App, b: App, i: int) -> bool {
    b == App { library: crate::domain::app::Library { selected_index: i as usize, ..a.library }, ..a }
}

/// What a key press on the library list does to the app.
pub open spec fn library_handled(a: App, key: Key, b: App) -> bool {
    let keys = a.user_config.keys;
    let n = library_option_names().len();
    let sel = a.library.selected_index;
    if is_right_key(key, keys) {
        right_handled(a, b)
    } else if is_down_key(key, keys) {
        entry_selected(a, b, index_after_down(n, Some(sel)))
    } else if is_up_key(key, keys) {
        entry_selected(a, b, index_after_up(n, Some(sel)))
    } else if key == Key::Char('H') {
        entry_selected(a, b, 0)
    } else if key == Key::Char('M') {
        entry_selected(a, b, middle_index(n))
    } else if key == Key::Char('L') {
        entry_selected(a, b, n - 1)
    } else if key == Key::Enter {
        library_entered(a, b)
    } else {
        b == a
    }
}

pub fn handler(key: Key, app: &mut App)
    ensures
        library_handled(*old(app), key, *final(app)),
{
    let options: Vec<String> = library_options();
    proof {
        assert(options@.len() == library_option_names().len()) by {
            assert(options@.map_values(|s: String| s@).len() == options@.len());
        }
    }
    if right_event(key, &app.user_config.keys) {
        handle_right_event(app);
    } else if down_event(key, &app.user_config.keys) {
        let next: usize = on_down_press_handler(options.as_slice(), Some(app.library.selected_index));
        app.library.selected_index = next;
    } else if up_event(key, &app.user_config.keys) {
        let next: usize = on_up_press_handler(options.as_slice(), Some(app.library.selected_index));
        app.library.selected_index = next;
    } else if high_event(key) {
        app.library.selected_index = on_high_press_handler();
    } else if middle_event(key) {
        let next: usize = on_middle_press_handler(options.as_slice());
        app.library.selected_index = next;
    } else if low_event(key) {
        let next: usize = on_low_press_handler(options.as_slice());
        app.library.selected_index = next;
    } else if key == Key::Enter {
        enter_selected(app);
    }
}

/// Open the selected library entry.
fn enter_selected(app: &mut App)
    ensures
        library_entered(*old(app), *final(app)),
{
    let i: usize = app.library.selected_index;
    if i == 0 {
        app.push_navigation_stack(RouteId::Discover, ActiveBlock::Discover);
        assert(app.dispatched@ =~= old(app).dispatched@ + Seq::empty());
    } else if i == 1 {
        open_with(app, IoEvent::GetRecentlyPlayed, RouteId::RecentlyPlayed, ActiveBlock::RecentlyPlayed);
    } else if i == 2 {
        open_friends(app);
    } else if i == 3 {
        open_stats(app);
    } else if i == 4 {
        app.request(AppRequest::ResetSavedTracksView);
        open_with(app, IoEvent::GetCurrentSavedTracks(None), RouteId::TrackTable, ActiveBlock::TrackTable);
    } else if i == 5 {
        open_with(app, IoEvent::GetCurrentUserSavedAlbums(None), RouteId::AlbumList, ActiveBlock::AlbumList);
    } else if i == 6 {
        open_with(app, IoEvent::GetFollowedArtists(None), RouteId::Artists, ActiveBlock::Artists);
    } else if i == 7 {
        open_with(app, IoEvent::GetCurrentUserSavedShows(None), RouteId::Podcasts, ActiveBlock::Podcasts);
    } else if i == 8 {
        open_local_files(app);
    }
}

/// Send `event`, then open screen `id`.
fn open_with(app: &mut App, event: IoEvent, id: RouteId, block: ActiveBlock)
    ensures
        opened(*old(app), *final(app), seq![event], id, block),
{
    app.dispatch(event);
    app.push_navigation_stack(id, block);
    assert(app.dispatched@ =~= old(app).dispatched@ + seq![event]);
}

fn open_friends(app: &mut App)
    ensures
        friends_opened(*old(app), *final(app)),
{
    app.push_navigation_stack(RouteId::Friends, ActiveBlock::Friends);
    if app.friend_code.is_none() {
        app.dispatch(IoEvent::GetFriendCode);
    }
    if app.friends.len() == 0 && !app.friends_loading {
        app.dispatch(IoEvent::GetFriends);
    }
    app.request(AppRequest::MarkFriendsRefreshed);
    assert(app.dispatched@ =~= old(app).dispatched@ + friends_loads(*old(app)));
}

fn open_stats(app: &mut App)
    ensures
        stats_opened(*old(app), *final(app)),
{
    app.stats_loading = true;
    let period = app.stats_period;
    open_with(app, IoEvent::LoadListeningStats(period), RouteId::Stats, ActiveBlock::Stats);
}

fn open_local_files(app: &mut App)
    ensures
        local_files_opened(*old(app), *final(app)),
{
    app.active_source = Source::Local;
    app.user_config.behavior.active_source = Source::Local;
    app.request(AppRequest::SaveConfig);
    app.selected_playlist_index = Some(0);
    app.local_playlists_index = 0;
    open_with(app, IoEvent::GetLocalPlaylists, RouteId::LocalBrowser, ActiveBlock::LocalBrowser);
}

} // verus!

