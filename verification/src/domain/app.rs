//! The application state that the handlers, snapshot readers and plugin
//! effects act on, with its navigation stack and its outboxes.
//!
//! Work that leaves the process (network requests, writing the config file,
//! opening a browser) is not carried out here: it is recorded, in order, in
//! `dispatched` (requests for the network task) and `requests` (operations the
//! runtime performs), and the runtime drains both.

use vstd::prelude::*;

use crate::domain::dup::Duplicate;
use crate::domain::pagination::{CursorPaged, Paged};
use crate::domain::plugin_api::{
    EpisodeInfo, PlayableInfo, PlaylistInfo, PluginPopup, PluginScreenContent, SavedAlbumInfo,
    ShowInfo, TrackInfo, AlbumInfo, ArtistInfo,
};
use crate::domain::user_config::{Source, UserConfig};
use crate::infra::history::{RecapPeriod, StatsData};

verus! {

/// Identifies a screen of the application.
#[derive(Debug, Clone, PartialEq, Eq)]
pub enum RouteId {
    Analysis,
    AlbumTracks,
    AlbumList,
    Artist,
    LyricsView,
    CoverArtView,
    MiniPlayer,
    Error,
    Home,
    RecentlyPlayed,
    Search,
    SelectedDevice,
    TrackTable,
    Discover,
    Artists,
    Podcasts,
    PodcastEpisodes,
    Recommendations,
    Dialog,
    AnnouncementPrompt,
    RecapPrompt,
    ExitPrompt,
    Settings,
    HelpMenu,
    Queue,
    Party,
    CreatePlaylist,
    Friends,
    LocalBrowser,
    Stats,
    /// A screen registered by a plugin, by name.
    PluginScreen(String),
}

/// Two route ids name the same screen.
pub open spec fn route_id_eq(a: RouteId, b: RouteId) -> bool {
    match (a, b) {
        (RouteId::PluginScreen(x), RouteId::PluginScreen(y)) => x@ == y@,
        (RouteId::PluginScreen(_), _) => false,
        (_, RouteId::PluginScreen(_)) => false,
        _ => a == b,
    }
}

impl RouteId {
    /// Whether `self` and `other` name the same screen.
    pub fn same_as(&self, other: &RouteId) -> (b: bool)
        ensures
            b == route_id_eq(*self, *other),
    {
        match (self, other) {
            (RouteId::PluginScreen(x), RouteId::PluginScreen(y)) => crate::text::str_eq(x.as_str(), y.as_str()),
            (RouteId::PluginScreen(_), _) => false,
            (_, RouteId::PluginScreen(_)) => false,
            (RouteId::Analysis, RouteId::Analysis) => true,
            (RouteId::AlbumTracks, RouteId::AlbumTracks) => true,
            (RouteId::AlbumList, RouteId::AlbumList) => true,
            (RouteId::Artist, RouteId::Artist) => true,
            (RouteId::LyricsView, RouteId::LyricsView) => true,
            (RouteId::CoverArtView, RouteId::CoverArtView) => true,
            (RouteId::MiniPlayer, RouteId::MiniPlayer) => true,
            (RouteId::Error, RouteId::Error) => true,
            (RouteId::Home, RouteId::Home) => true,
            (RouteId::RecentlyPlayed, RouteId::RecentlyPlayed) => true,
            (RouteId::Search, RouteId::Search) => true,
            (RouteId::SelectedDevice, RouteId::SelectedDevice) => true,
            (RouteId::TrackTable, RouteId::TrackTable) => true,
            (RouteId::Discover, RouteId::Discover) => true,
            (RouteId::Artists, RouteId::Artists) => true,
            (RouteId::Podcasts, RouteId::Podcasts) => true,
            (RouteId::PodcastEpisodes, RouteId::PodcastEpisodes) => true,
            (RouteId::Recommendations, RouteId::Recommendations) => true,
            (RouteId::Dialog, RouteId::Dialog) => true,
            (RouteId::AnnouncementPrompt, RouteId::AnnouncementPrompt) => true,
            (RouteId::RecapPrompt, RouteId::RecapPrompt) => true,
            (RouteId::ExitPrompt, RouteId::ExitPrompt) => true,
            (RouteId::Settings, RouteId::Settings) => true,
            (RouteId::HelpMenu, RouteId::HelpMenu) => true,
            (RouteId::Queue, RouteId::Queue) => true,
            (RouteId::Party, RouteId::Party) => true,
            (RouteId::CreatePlaylist, RouteId::CreatePlaylist) => true,
            (RouteId::Friends, RouteId::Friends) => true,
            (RouteId::LocalBrowser, RouteId::LocalBrowser) => true,
            (RouteId::Stats, RouteId::Stats) => true,
            _ => false,
        }
    }

    /// An independent copy of the route id.
    pub fn copied(&self) -> (r: RouteId)
        ensures
            route_id_eq(r, *self),
            !(r is PluginScreen) ==> r == *self,
    {
        match self {
            RouteId::PluginScreen(name) => RouteId::PluginScreen(name.clone()),
            RouteId::Analysis => RouteId::Analysis,
            RouteId::AlbumTracks => RouteId::AlbumTracks,
            RouteId::AlbumList => RouteId::AlbumList,
            RouteId::Artist => RouteId::Artist,
            RouteId::LyricsView => RouteId::LyricsView,
            RouteId::CoverArtView => RouteId::CoverArtView,
            RouteId::MiniPlayer => RouteId::MiniPlayer,
            RouteId::Error => RouteId::Error,
            RouteId::Home => RouteId::Home,
            RouteId::RecentlyPlayed => RouteId::RecentlyPlayed,
            RouteId::Search => RouteId::Search,
            RouteId::SelectedDevice => RouteId::SelectedDevice,
            RouteId::TrackTable => RouteId::TrackTable,
            RouteId::Discover => RouteId::Discover,
            RouteId::Artists => RouteId::Artists,
            RouteId::Podcasts => RouteId::Podcasts,
            RouteId::PodcastEpisodes => RouteId::PodcastEpisodes,
            RouteId::Recommendations => RouteId::Recommendations,
            RouteId::Dialog => RouteId::Dialog,
            RouteId::AnnouncementPrompt => RouteId::AnnouncementPrompt,
            RouteId::RecapPrompt => RouteId::RecapPrompt,
            RouteId::ExitPrompt => RouteId::ExitPrompt,
            RouteId::Settings => RouteId::Settings,
            RouteId::HelpMenu => RouteId::HelpMenu,
            RouteId::Queue => RouteId::Queue,
            RouteId::Party => RouteId::Party,
            RouteId::CreatePlaylist => RouteId::CreatePlaylist,
            RouteId::Friends => RouteId::Friends,
            RouteId::LocalBrowser => RouteId::LocalBrowser,
            RouteId::Stats => RouteId::Stats,
        }
    }
}

/// The focusable blocks of the interface.
#[derive(Debug, Clone, Copy, PartialEq, Eq, Structural)]
pub enum ActiveBlock {
    Analysis,
    AlbumList,
    AlbumTracks,
    ArtistBlock,
    Artists,
    Dialog,
    Discover,
    Empty,
    EpisodeTable,
    Error,
    Friends,
    HelpMenu,
    Home,
    Input,
    Library,
    LocalBrowser,
    LyricsView,
    MiniPlayer,
    MyPlaylists,
    Party,
    PlayBar,
    PluginScreen,
    Podcasts,
    Queue,
    RecapPrompt,
    RecentlyPlayed,
    SearchResultBlock,
    SelectDevice,
    Settings,
    Stats,
    TrackTable,
}

/// An entry of the navigation stack: a screen plus the focused and the
/// hovered block on it.
#[derive(Debug, Clone, PartialEq, Eq)]
pub struct Route {
    pub id: RouteId,
    pub active_block: ActiveBlock,
    pub hovered_block: ActiveBlock,
}

/// The route the application starts on.
pub open spec fn home_route_ok(r: Route) -> bool {
    r.id == RouteId::Home && r.active_block == ActiveBlock::Empty && r.hovered_block
        == ActiveBlock::Library
}

/// The stack of visited screens. It is never empty: the home screen at the
/// bottom cannot be popped.
#[derive(Debug)]
pub struct NavigationStack {
    routes: Vec<Route>,
}

impl View for NavigationStack {
    type V = Seq<Route>;

    closed spec fn view(&self) -> Seq<Route> {
        self.routes@
    }
}

impl NavigationStack {
    #[verifier::type_invariant]
    spec fn never_empty(self) -> bool {
        self.routes@.len() > 0
    }

    /// A stack holding only the home route.
    pub fn new() -> (s: Self)
        ensures
            s@.len() == 1,
            home_route_ok(s@[0]),
    {
        let mut routes: Vec<Route> = Vec::new();
        routes.push(
            Route { id: RouteId::Home, active_block: ActiveBlock::Empty, hovered_block: ActiveBlock::Library },
        );
        NavigationStack { routes }
    }

    /// The route on top of the stack.
    pub fn current(&self) -> (r: &Route)
        ensures
            self@.len() > 0,
            *r == self@.last(),
    {
        proof {
            use_type_invariant(self);
        }
        let n: usize = self.routes.len();
        &self.routes[n - 1]
    }

    /// Number of routes on the stack.
    pub fn depth(&self) -> (n: usize)
        ensures
            n == self@.len(),
            n > 0,
    {
        proof {
            use_type_invariant(self);
        }
        self.routes.len()
    }

    /// Push a route, unless the top of the stack is already that screen.
    pub fn push(&mut self, id: RouteId, block: ActiveBlock)
        ensures
            old(self)@.len() > 0,
            route_id_eq(old(self)@.last().id, id) ==> final(self)@ == old(self)@,
            !route_id_eq(old(self)@.last().id, id) ==> final(self)@ == old(self)@.push(
                Route { id, active_block: block, hovered_block: block },
            ),
    {
        proof {
            use_type_invariant(&*self);
        }
        let n: usize = self.routes.len();
        let same: bool = self.routes[n - 1].id.same_as(&id);
        if !same {
            let mut taken: NavigationStack = NavigationStack::new();
            core::mem::swap(self, &mut taken);
            proof {
                use_type_invariant(&taken);
            }
            let mut routes: Vec<Route> = taken.routes;
            routes.push(Route { id, active_block: block, hovered_block: block });
            *self = NavigationStack { routes };
        }
    }

    /// Pop the top route; the bottom route stays.
    pub fn pop(&mut self) -> (r: Option<Route>)
        ensures
            old(self)@.len() > 0,
            old(self)@.len() == 1 ==> r is None && final(self)@ == old(self)@,
            old(self)@.len() > 1 ==> r == Some(old(self)@.last()) && final(self)@ == old(self)@.drop_last(),
    {
        proof {
            use_type_invariant(&*self);
        }
        if self.routes.len() == 1 {
            None
        } else {
            let mut taken: NavigationStack = NavigationStack::new();
            core::mem::swap(self, &mut taken);
            proof {
                use_type_invariant(&taken);
            }
            let mut routes: Vec<Route> = taken.routes;
            let top: Option<Route> = routes.pop();
            *self = NavigationStack { routes };
            top
        }
    }

    /// Change the focused and/or hovered block of the top route.
    pub fn set_current_state(&mut self, active: Option<ActiveBlock>, hovered: Option<ActiveBlock>)
        ensures
            old(self)@.len() > 0,
            final(self)@.len() == old(self)@.len(),
            final(self)@.drop_last() == old(self)@.drop_last(),
            final(self)@.last().id == old(self)@.last().id,
            final(self)@.last().active_block == match active {
                Some(b) => b,
                None => old(self)@.last().active_block,
            },
            final(self)@.last().hovered_block == match hovered {
                Some(b) => b,
                None => old(self)@.last().hovered_block,
            },
    {
        proof {
            use_type_invariant(&*self);
        }
        let mut taken: NavigationStack = NavigationStack::new();
        core::mem::swap(self, &mut taken);
        proof {
            use_type_invariant(&taken);
        }
        let mut routes: Vec<Route> = taken.routes;
        let mut top: Route = routes.pop().unwrap();
        if let Some(b) = active {
            top.active_block = b;
        }
        if let Some(b) = hovered {
            top.hovered_block = b;
        }
        routes.push(top);
        proof {
            assert(routes@.drop_last() =~= old(self)@.drop_last());
        }
        *self = NavigationStack { routes };
    }
}

/// The stack after pushing `id` (no change when it is already on top).
pub open spec fn nav_pushed(s: Seq<Route>, id: RouteId, block: ActiveBlock) -> Seq<Route> {
    if route_id_eq(s.last().id, id) {
        s
    } else {
        s.push(Route { id, active_block: block, hovered_block: block })
    }
}

/// The stack after popping (the bottom route stays).
pub open spec fn nav_popped(s: Seq<Route>) -> Seq<Route> {
    if s.len() <= 1 {
        s
    } else {
        s.drop_last()
    }
}

/// Opening a screen that is not already on top and then going back returns
/// the navigation stack to what it was.
pub proof fn lemma_push_then_pop_restores(s: Seq<Route>, id: RouteId, block: ActiveBlock)
    requires
        s.len() > 0,
        !route_id_eq(s.last().id, id),
    ensures
        nav_popped(nav_pushed(s, id, block)) == s,
{
    assert(nav_pushed(s, id, block).drop_last() =~= s);
}

/// Going back never empties the stack: the home screen at the bottom stays.
pub proof fn lemma_pop_keeps_bottom(s: Seq<Route>)
    requires
        s.len() > 0,
    ensures
        nav_popped(s).len() > 0,
        nav_popped(s)[0] == s[0],
{
}

/// `b` is `a` with only the navigation stack changed, to `nav`.
pub open spec fn only_nav(a: App, b: App, nav: Seq<Route>) -> bool {
    &&& b == App { navigation_stack: b.navigation_stack, ..a }
    &&& b.navigation_stack@ == nav
}

/// Repeat mode of the player.
#[derive(Debug, Clone, Copy, PartialEq, Eq, Structural)]
pub enum RepeatState {
    Off,
    Track,
    Context,
}

/// Kinds of playback device.
#[derive(Debug, Clone, Copy, PartialEq, Eq, Structural)]
pub enum DeviceType {
    Computer,
    Tablet,
    Smartphone,
    Smartwatch,
    Speaker,
    Tv,
    Avr,
    Stb,
    AudioDongle,
    GameConsole,
    CastVideo,
    CastAudio,
    Automobile,
    Unknown,
}

/// A playback device as the Web API reports it.
#[derive(Debug, Clone, PartialEq, Eq)]
pub struct SpotifyDevice {
    pub id: Option<String>,
    pub is_active: bool,
    pub is_private_session: bool,
    pub is_restricted: bool,
    pub name: String,
    pub device_type: DeviceType,
    pub volume_percent: Option<u32>,
}

/// The currently playing context as the Web API reports it (the parts the
/// library reads).
#[derive(Debug, Clone, PartialEq, Eq)]
pub struct PlaybackContext {
    pub device: SpotifyDevice,
    pub repeat_state: RepeatState,
    pub shuffle_state: bool,
    pub is_playing: bool,
}

/// What the native player reports about the item it is playing.
#[derive(Debug, Clone, PartialEq, Eq)]
pub struct PlaybackSnapshot {
    pub item_uri: Option<String>,
    pub item_id: Option<String>,
    pub title: String,
    pub artists: Vec<String>,
    pub album: String,
    pub duration_ms: u64,
    pub progress_ms: u64,
    pub is_playing: bool,
    pub shuffle: bool,
    pub repeat: Option<RepeatState>,
}

/// A requested network operation, performed by the network task.
#[derive(Debug, Clone, PartialEq, Eq)]
pub enum IoEvent {
    PausePlayback,
    NextTrack,
    /// Position to seek to, in milliseconds.
    Seek(u32),
    /// The shuffle state to set.
    Shuffle(bool),
    GetQueue,
    GetDevices,
    GetRecentlyPlayed,
    GetPlaylists,
    GetFriendCode,
    GetFriends,
    GetLocalPlaylists,
    GetLyrics,
    /// Search query and the user's market.
    GetSearchResults(String, Option<String>),
    /// Context uri, uri list, offset.
    StartPlayback(Option<String>, Option<Vec<String>>, Option<usize>),
    Repeat(RepeatState),
    /// Device id, whether to persist the choice.
    TransferPlaybackToDevice(String, bool),
    AddItemToQueue(String),
    CreateNewPlaylist(String, Vec<String>),
    AddTrackToPlaylist(String, String),
    RemoveTrackFromPlaylistAtPosition(String, String, usize),
    UserFollowPlaylist(String, String, Option<bool>),
    UserUnfollowPlaylist(String, String),
    ToggleSaveTrack(String),
    CurrentUserSavedAlbumAdd(String),
    CurrentUserSavedAlbumDelete(String),
    CurrentUserSavedShowAdd(String),
    CurrentUserSavedShowDelete(String),
    UserFollowArtists(Vec<String>),
    UserUnfollowArtists(Vec<String>),
    CurrentUserSavedTracksContains(Vec<String>),
    UserArtistFollowCheck(Vec<String>),
    CurrentUserSavedAlbumsContains(Vec<String>),
    CurrentUserSavedShowsContains(Vec<String>),
    LoadListeningStats(RecapPeriod),
    GetCurrentSavedTracks(Option<u32>),
    GetCurrentUserSavedAlbums(Option<u32>),
    GetFollowedArtists(Option<String>),
    GetCurrentUserSavedShows(Option<u32>),
}

/// An operation of the running application that this library asks for but
/// does not carry out itself.
#[derive(Debug, Clone, PartialEq, Eq)]
pub enum AppRequest {
    TogglePlayback,
    NextTrack,
    PreviousTrack,
    SeekTo(u32),
    ToggleShuffle,
    CycleRepeat,
    LoadSettingsForCategory,
    GetAudioAnalysis,
    EpisodeTablePrevious,
    /// Show id whose next page of episodes to show.
    EpisodeTableNext(String),
    FollowShow(ActiveBlock),
    UnfollowShow(ActiveBlock),
    ResetSavedTracksView,
    /// Persist the user configuration to disk.
    SaveConfig,
    /// Open a file in the system browser.
    OpenInBrowser(String),
    MarkFriendsRefreshed,
}

/// A status-bar message and how long it stays, in seconds.
#[derive(Debug, Clone, PartialEq, Eq)]
pub struct StatusMessage {
    pub text: String,
    pub ttl_secs: u64,
    /// Error messages are not replaced by ordinary ones until they expire.
    pub is_error: bool,
}

/// Pages of results fetched so far and the one on screen.
#[derive(Debug, Clone, PartialEq, Eq)]
pub struct ScrollableResultPages<T> {
    pub index: usize,
    pub pages: Vec<T>,
}

impl<T> ScrollableResultPages<T> {
    pub fn new() -> (s: Self)
        ensures
            s.index == 0,
            s.pages@.len() == 0,
    {
        ScrollableResultPages { index: 0, pages: Vec::new() }
    }

    /// The page at `at`, or the page on screen when `at` is `None`.
    pub fn get_results(&self, at: Option<usize>) -> (r: Option<&T>)
        ensures
            ({
                let i = match at {
                    Some(i) => i,
                    None => self.index,
                };
                if i < self.pages@.len() {
                    r == Some(&self.pages@[i as int])
                } else {
                    r is None
                }
            }),
    {
        let i: usize = match at {
            Some(i) => i,
            None => self.index,
        };
        if i < self.pages.len() {
            Some(&self.pages[i])
        } else {
            None
        }
    }
}

/// Library screen state.
#[derive(Debug, Clone, PartialEq, Eq)]
pub struct Library {
    pub selected_index: usize,
    pub saved_tracks: ScrollableResultPages<Paged<TrackInfo>>,
    pub saved_albums: ScrollableResultPages<Paged<SavedAlbumInfo>>,
    pub saved_shows: ScrollableResultPages<Paged<ShowInfo>>,
    pub show_episodes: ScrollableResultPages<Paged<EpisodeInfo>>,
}

/// Which kind of show the episode table was opened from.
#[derive(Debug, Clone, Copy, PartialEq, Eq, Structural)]
pub enum EpisodeTableContext {
    Simplified,
    Full,
}

/// The show whose episodes are listed.
#[derive(Debug, Clone, PartialEq, Eq)]
pub struct SelectedShow {
    pub show: ShowInfo,
}

/// The pending monthly-recap prompt.
#[derive(Debug, Clone, PartialEq, Eq)]
pub struct RecapPromptState {
    pub path: String,
    pub listens: u64,
}

/// The playback queue as the Web API reports it.
#[derive(Debug, Clone, PartialEq, Eq)]
pub struct QueueState {
    pub currently_playing: Option<PlayableInfo>,
    pub queue: Vec<PlayableInfo>,
}

/// Progress of the lyrics fetch for the current track.
#[derive(Debug, Clone, Copy, PartialEq, Eq, Structural)]
pub enum LyricsStatus {
    NotStarted,
    Loading,
    Found,
    NotFound,
}

/// Search screen state: the first page of each result category and the
/// selected row in each.
#[derive(Debug, Clone, PartialEq, Eq)]
pub struct SearchResultsState {
    pub tracks: Option<Paged<TrackInfo>>,
    pub albums: Option<Paged<AlbumInfo>>,
    pub artists: Option<Paged<ArtistInfo>>,
    pub playlists: Option<Paged<PlaylistInfo>>,
    pub shows: Option<Paged<ShowInfo>>,
    pub selected_tracks_index: Option<usize>,
    pub selected_album_index: Option<usize>,
    pub selected_artists_index: Option<usize>,
    pub selected_playlists_index: Option<usize>,
    pub selected_shows_index: Option<usize>,
}

/// Data categories that plugins can read.
#[derive(Debug, Clone, Copy, PartialEq, Eq, Structural)]
pub enum PluginDataKind {
    Playlists,
    Queue,
    SavedTracks,
    SavedAlbums,
    SavedShows,
    RecentlyPlayed,
    Devices,
    Lyrics,
    Search,
}

/// The signed-in user.
#[derive(Debug, Clone, PartialEq, Eq)]
pub struct UserProfile {
    pub id: String,
    pub country: Option<String>,
}

/// Which pane of the source-and-device picker has focus.
#[derive(Debug, Clone, Copy, PartialEq, Eq, Structural)]
pub enum SourceFocus {
    Source,
    Devices,
}

/// The application state.
#[derive(Debug)]
pub struct App {
    pub navigation_stack: NavigationStack,
    /// Network requests, oldest first, waiting for the network task.
    pub dispatched: Vec<IoEvent>,
    /// Runtime operations, oldest first, waiting for the runtime.
    pub requests: Vec<AppRequest>,
    pub user_config: UserConfig,
    pub library: Library,
    pub episode_list_index: usize,
    pub episode_table_context: EpisodeTableContext,
    pub selected_show_full: Option<SelectedShow>,
    pub selected_show_simplified: Option<SelectedShow>,
    pub stats_data: Option<StatsData>,
    pub stats_period: RecapPeriod,
    pub stats_selected_track: usize,
    pub stats_loading: bool,
    pub status_message: Option<StatusMessage>,
    pub recap_prompt: Option<RecapPromptState>,
    /// Published plugin screens, by screen name (at most one entry per name).
    pub plugin_screens: Vec<(String, PluginScreenContent)>,
    pub plugin_screen_scroll: u16,
    /// Keys pressed on a plugin screen (screen name, key string), oldest first.
    pub pending_plugin_screen_keys: Vec<(String, String)>,
    /// Playbar text segments set by plugins, by plugin name.
    pub plugin_playbar_segments: Vec<(String, String)>,
    pub plugin_popup: Option<PluginPopup>,
    pub plugin_popup_scroll: u16,
    pub queue: Option<QueueState>,
    pub lyrics_status: LyricsStatus,
    /// Timestamped lyrics lines (milliseconds, text).
    pub lyrics: Option<Vec<(u64, String)>>,
    pub search_results: SearchResultsState,
    pub search_generation: u64,
    pub all_playlists: Vec<PlaylistInfo>,
    pub recently_played: Option<CursorPaged<TrackInfo>>,
    pub devices: Option<Vec<SpotifyDevice>>,
    pub current_playback_context: Option<PlaybackContext>,
    pub playback_snapshot: Option<PlaybackSnapshot>,
    /// A volume change (percent) waiting to be sent to the player.
    pub pending_volume: Option<u8>,
    pub friend_code: Option<String>,
    pub friends: Vec<String>,
    pub friends_loading: bool,
    pub active_source: Source,
    pub source_list_index: usize,
    pub source_device_focus: SourceFocus,
    pub selected_playlist_index: Option<usize>,
    pub local_playlists_index: usize,
    pub user: Option<UserProfile>,
    pub create_playlist_search_results: Vec<TrackInfo>,
    pub create_playlist_selected_result: usize,
}

/// The status line after an ordinary message `text` shown for `ttl` seconds
/// (an error message that is showing stays).
pub open spec fn notified(a: App, b: App, text: Seq<char>, ttl: u64) -> bool {
    if a.status_message matches Some(m) && m.is_error {
        b.status_message == a.status_message
    } else {
        b.status_message matches Some(m) && m.text@ == text && m.ttl_secs == ttl && !m.is_error
    }
}

/// `app` differs from `before` only in the listed outbox having grown.
pub open spec fn only_dispatched(before: App, after: App, events: Seq<IoEvent>) -> bool {
    after == App { dispatched: after.dispatched, ..before } && after.dispatched@
        == before.dispatched@ + events
}

/// `after` is `before` with one more runtime operation, `op`.
pub open spec fn only_requested(before: App, after: App, op: AppRequest) -> bool {
    after == App { requests: after.requests, ..before } && after.requests@
        == before.requests@.push(op)
}

/// The repeat mode after `r` in the cycle off, context, track.
pub open spec fn next_repeat(r: RepeatState) -> RepeatState {
    match r {
        RepeatState::Off => RepeatState::Context,
        RepeatState::Context => RepeatState::Track,
        RepeatState::Track => RepeatState::Off,
    }
}

/// Stepping the repeat mode cycles through all three modes, off first to
/// context: no mode is its own successor, three steps come back to the
/// start, and off steps to context.
pub proof fn lemma_repeat_cycle(r: RepeatState)
    ensures
        next_repeat(r) != r,
        next_repeat(next_repeat(next_repeat(r))) == r,
        next_repeat(next_repeat(r)) != r,
        next_repeat(RepeatState::Off) == RepeatState::Context,
{
}

/// Play/pause pressed on `a`: the Web API pauses what its context reports
/// playing and resumes anything else; the native player is asked to toggle.
pub open spec fn playback_toggled(a: App, b: App) -> bool {
    match a.playback_snapshot {
        Some(_) => only_requested(a, b, AppRequest::TogglePlayback),
        None => only_dispatched(
            a,
            b,
            seq![
                if a.current_playback_context matches Some(c) && c.is_playing {
                    IoEvent::PausePlayback
                } else {
                    IoEvent::StartPlayback(None, None, None)
                },
            ],
        ),
    }
}

/// Skip to the next track.
pub open spec fn skipped_next(a: App, b: App) -> bool {
    match a.playback_snapshot {
        Some(_) => only_requested(a, b, AppRequest::NextTrack),
        None => only_dispatched(a, b, seq![IoEvent::NextTrack]),
    }
}

/// Seek to `ms` milliseconds into the item.
pub open spec fn sought(a: App, b: App, ms: u32) -> bool {
    match a.playback_snapshot {
        Some(_) => only_requested(a, b, AppRequest::SeekTo(ms)),
        None => only_dispatched(a, b, seq![IoEvent::Seek(ms)]),
    }
}

/// Flip shuffle: the Web API is told the opposite of the state its context
/// reports; otherwise the runtime is asked to toggle.
pub open spec fn shuffle_toggled(a: App, b: App) -> bool {
    match (a.playback_snapshot, a.current_playback_context) {
        (None, Some(c)) => only_dispatched(a, b, seq![IoEvent::Shuffle(!c.shuffle_state)]),
        _ => only_requested(a, b, AppRequest::ToggleShuffle),
    }
}

/// Step the repeat mode: the Web API is told the mode after the one its
/// context reports; otherwise the runtime is asked to step it.
pub open spec fn repeat_cycled(a: App, b: App) -> bool {
    match (a.playback_snapshot, a.current_playback_context) {
        (None, Some(c)) => only_dispatched(a, b, seq![IoEvent::Repeat(next_repeat(c.repeat_state))]),
        _ => only_requested(a, b, AppRequest::CycleRepeat),
    }
}

/// The state of a freshly started application with configuration `c`.
pub open spec fn starts_fresh(app: App, c: UserConfig) -> bool {
    &&& app.navigation_stack@.len() == 1
    &&& home_route_ok(app.navigation_stack@[0])
    &&& app.dispatched@.len() == 0
    &&& app.requests@.len() == 0
    &&& app.user_config == c
    &&& app.library.selected_index == 0
    &&& app.library.saved_tracks.index == 0 && app.library.saved_tracks.pages@.len() == 0
    &&& app.library.saved_albums.index == 0 && app.library.saved_albums.pages@.len() == 0
    &&& app.library.saved_shows.index == 0 && app.library.saved_shows.pages@.len() == 0
    &&& app.library.show_episodes.index == 0 && app.library.show_episodes.pages@.len() == 0
    &&& app.episode_list_index == 0
    &&& app.episode_table_context == EpisodeTableContext::Full
    &&& app.selected_show_full is None
    &&& app.selected_show_simplified is None
    &&& app.stats_data is None
    &&& app.stats_period == RecapPeriod::Week
    &&& app.stats_selected_track == 0
    &&& !app.stats_loading
    &&& app.status_message is None
    &&& app.recap_prompt is None
    &&& app.plugin_screens@.len() == 0
    &&& app.plugin_screen_scroll == 0
    &&& app.pending_plugin_screen_keys@.len() == 0
    &&& app.plugin_playbar_segments@.len() == 0
    &&& app.plugin_popup is None
    &&& app.plugin_popup_scroll == 0
    &&& app.queue is None
    &&& app.lyrics_status == LyricsStatus::NotStarted
    &&& app.lyrics is None
    &&& app.search_results == (SearchResultsState {
        tracks: None,
        albums: None,
        artists: None,
        playlists: None,
        shows: None,
        selected_tracks_index: None,
        selected_album_index: None,
        selected_artists_index: None,
        selected_playlists_index: None,
        selected_shows_index: None,
    })
    &&& app.search_generation == 0
    &&& app.all_playlists@.len() == 0
    &&& app.recently_played is None
    &&& app.devices is None
    &&& app.current_playback_context is None
    &&& app.playback_snapshot is None
    &&& app.pending_volume is None
    &&& app.friend_code is None
    &&& app.friends@.len() == 0
    &&& !app.friends_loading
    &&& app.active_source == c.behavior.active_source
    &&& app.source_list_index == 0
    &&& app.source_device_focus == SourceFocus::Source
    &&& app.selected_playlist_index is None
    &&& app.local_playlists_index == 0
    &&& app.user is None
    &&& app.create_playlist_search_results@.len() == 0
    &&& app.create_playlist_selected_result == 0
}

impl App {
    /// A fresh application state for `user_config`.
    pub fn new(user_config: UserConfig) -> (app: App)
        ensures
            starts_fresh(app, user_config),
    {
        let source: Source = user_config.behavior.active_source;
        App {
            navigation_stack: NavigationStack::new(),
            dispatched: Vec::new(),
            requests: Vec::new(),
            user_config,
            library: Library {
                selected_index: 0,
                saved_tracks: ScrollableResultPages::new(),
                saved_albums: ScrollableResultPages::new(),
                saved_shows: ScrollableResultPages::new(),
                show_episodes: ScrollableResultPages::new(),
            },
            episode_list_index: 0,
            episode_table_context: EpisodeTableContext::Full,
            selected_show_full: None,
            selected_show_simplified: None,
            stats_data: None,
            stats_period: RecapPeriod::Week,
            stats_selected_track: 0,
            stats_loading: false,
            status_message: None,
            recap_prompt: None,
            plugin_screens: Vec::new(),
            plugin_screen_scroll: 0,
            pending_plugin_screen_keys: Vec::new(),
            plugin_playbar_segments: Vec::new(),
            plugin_popup: None,
            plugin_popup_scroll: 0,
            queue: None,
            lyrics_status: LyricsStatus::NotStarted,
            lyrics: None,
            search_results: SearchResultsState {
                tracks: None,
                albums: None,
                artists: None,
                playlists: None,
                shows: None,
                selected_tracks_index: None,
                selected_album_index: None,
                selected_artists_index: None,
                selected_playlists_index: None,
                selected_shows_index: None,
            },
            search_generation: 0,
            all_playlists: Vec::new(),
            recently_played: None,
            devices: None,
            current_playback_context: None,
            playback_snapshot: None,
            pending_volume: None,
            friend_code: None,
            friends: Vec::new(),
            friends_loading: false,
            active_source: source,
            source_list_index: 0,
            source_device_focus: SourceFocus::Source,
            selected_playlist_index: None,
            local_playlists_index: 0,
            user: None,
            create_playlist_search_results: Vec::new(),
            create_playlist_selected_result: 0,
        }
    }

    /// The route on top of the navigation stack.
    pub fn get_current_route(&self) -> (r: &Route)
        ensures
            *r == self.navigation_stack@.last(),
            self.navigation_stack@.len() > 0,
    {
        self.navigation_stack.current()
    }

    /// Open a screen (no-op when it is already on top).
    pub fn push_navigation_stack(&mut self, id: RouteId, block: ActiveBlock)
        ensures
            *final(self) == (App { navigation_stack: final(self).navigation_stack, ..*old(self) }),
            old(self).navigation_stack@.len() > 0,
            route_id_eq(old(self).navigation_stack@.last().id, id) ==> final(self).navigation_stack@ == old(self).navigation_stack@,
            !route_id_eq(old(self).navigation_stack@.last().id, id) ==> final(self).navigation_stack@ == old(self).navigation_stack@.push(
                Route { id, active_block: block, hovered_block: block },
            ),
    {
        self.navigation_stack.push(id, block);
    }

    /// Leave the current screen (the home screen at the bottom stays).
    pub fn pop_navigation_stack(&mut self) -> (r: Option<Route>)
        ensures
            *final(self) == (App { navigation_stack: final(self).navigation_stack, ..*old(self) }),
            old(self).navigation_stack@.len() > 0,
            old(self).navigation_stack@.len() == 1 ==> r is None && final(self).navigation_stack@ == old(self).navigation_stack@,
            old(self).navigation_stack@.len() > 1 ==> r == Some(
                old(self).navigation_stack@.last(),
            ) && final(self).navigation_stack@ == old(self).navigation_stack@.drop_last(),
    {
        self.navigation_stack.pop()
    }

    /// Change the focused and/or hovered block of the current screen.
    pub fn set_current_route_state(&mut self, active: Option<ActiveBlock>, hovered: Option<ActiveBlock>)
        ensures
            *final(self) == (App { navigation_stack: final(self).navigation_stack, ..*old(self) }),
            old(self).navigation_stack@.len() > 0,
            final(self).navigation_stack@.len() == old(self).navigation_stack@.len(),
            final(self).navigation_stack@.drop_last() == old(self).navigation_stack@.drop_last(),
            final(self).navigation_stack@.last().id == old(self).navigation_stack@.last().id,
            final(self).navigation_stack@.last().active_block == match active {
                Some(b) => b,
                None => old(self).navigation_stack@.last().active_block,
            },
            final(self).navigation_stack@.last().hovered_block == match hovered {
                Some(b) => b,
                None => old(self).navigation_stack@.last().hovered_block,
            },
    {
        self.navigation_stack.set_current_state(active, hovered);
    }

    /// Queue a network request.
    pub fn dispatch(&mut self, event: IoEvent)
        ensures
            *final(self) == (App { dispatched: final(self).dispatched, ..*old(self) }),
            final(self).dispatched@ == old(self).dispatched@.push(event),
    {
        self.dispatched.push(event);
    }

    /// Queue a runtime operation.
    pub fn request(&mut self, op: AppRequest)
        ensures
            *final(self) == (App { requests: final(self).requests, ..*old(self) }),
            final(self).requests@ == old(self).requests@.push(op),
    {
        self.requests.push(op);
    }

    /// Pause what is playing, or resume playback.
    pub fn toggle_playback(&mut self)
        ensures
            playback_toggled(*old(self), *final(self)),
    {
        if self.playback_snapshot.is_some() {
            self.request(AppRequest::TogglePlayback);
        } else {
            let playing: bool = match &self.current_playback_context {
                Some(c) => c.is_playing,
                None => false,
            };
            if playing {
                self.dispatch(IoEvent::PausePlayback);
            } else {
                self.dispatch(IoEvent::StartPlayback(None, None, None));
            }
            assert(self.dispatched@ =~= old(self).dispatched@ + seq![self.dispatched@.last()]);
        }
    }

    /// Skip to the next track.
    pub fn next_track(&mut self)
        ensures
            skipped_next(*old(self), *final(self)),
    {
        if self.playback_snapshot.is_some() {
            self.request(AppRequest::NextTrack);
        } else {
            self.dispatch(IoEvent::NextTrack);
            assert(self.dispatched@ =~= old(self).dispatched@ + seq![IoEvent::NextTrack]);
        }
    }

    /// Go back to the previous track (the runtime knows how far the current
    /// one has played).
    pub fn previous_track(&mut self)
        ensures
            only_requested(*old(self), *final(self), AppRequest::PreviousTrack),
    {
        self.request(AppRequest::PreviousTrack);
    }

    /// Seek to `position_ms` into the item that is playing.
    pub fn seek_to(&mut self, position_ms: u32)
        ensures
            sought(*old(self), *final(self), position_ms),
    {
        if self.playback_snapshot.is_some() {
            self.request(AppRequest::SeekTo(position_ms));
        } else {
            self.dispatch(IoEvent::Seek(position_ms));
            assert(self.dispatched@ =~= old(self).dispatched@ + seq![IoEvent::Seek(position_ms)]);
        }
    }

    /// Flip the shuffle state.
    pub fn shuffle(&mut self)
        ensures
            shuffle_toggled(*old(self), *final(self)),
    {
        let web_state: Option<bool> = if self.playback_snapshot.is_some() {
            None
        } else {
            match &self.current_playback_context {
                Some(c) => Some(c.shuffle_state),
                None => None,
            }
        };
        match web_state {
            Some(on) => {
                self.dispatch(IoEvent::Shuffle(!on));
                assert(self.dispatched@ =~= old(self).dispatched@ + seq![IoEvent::Shuffle(!on)]);
            },
            None => self.request(AppRequest::ToggleShuffle),
        }
    }

    /// Step the repeat mode: off, context, track, off.
    pub fn repeat(&mut self)
        ensures
            repeat_cycled(*old(self), *final(self)),
    {
        let web_state: Option<RepeatState> = if self.playback_snapshot.is_some() {
            None
        } else {
            match &self.current_playback_context {
                Some(c) => Some(c.repeat_state),
                None => None,
            }
        };
        match web_state {
            Some(r) => {
                let next: RepeatState = match r {
                    RepeatState::Off => RepeatState::Context,
                    RepeatState::Context => RepeatState::Track,
                    RepeatState::Track => RepeatState::Off,
                };
                self.dispatch(IoEvent::Repeat(next));
                assert(self.dispatched@ =~= old(self).dispatched@ + seq![IoEvent::Repeat(next)]);
            },
            None => self.request(AppRequest::CycleRepeat),
        }
    }

    /// Set the volume, in percent; the player picks it up from
    /// `pending_volume`.
    pub fn set_volume_percent(&mut self, percent: u8)
        ensures
            *final(self) == (App { pending_volume: Some(percent), ..*old(self) }),
    {
        self.pending_volume = Some(percent);
    }

    /// Show an ordinary status message, unless an error message is showing.
    pub fn set_status_message(&mut self, text: String, ttl_secs: u64)
        ensures
            *final(self) == (App { status_message: final(self).status_message, ..*old(self) }),
            (old(self).status_message matches Some(m) && m.is_error) ==> final(self).status_message
                == old(self).status_message,
            !(old(self).status_message matches Some(m) && m.is_error) ==> final(self).status_message
                == Some(StatusMessage { text, ttl_secs, is_error: false }),
    {
        let blocked: bool = match &self.status_message {
            Some(m) => m.is_error,
            None => false,
        };
        if !blocked {
            self.status_message = Some(StatusMessage { text, ttl_secs, is_error: false });
        }
    }

    /// Show an error status message; it replaces whatever is showing.
    pub fn set_error_status_message(&mut self, text: String, ttl_secs: u64)
        ensures
            *final(self) == (App { status_message: final(self).status_message, ..*old(self) }),
            final(self).status_message == Some(StatusMessage { text, ttl_secs, is_error: true }),
    {
        self.status_message = Some(StatusMessage { text, ttl_secs, is_error: true });
    }

    /// The signed-in user's market, when known.
    pub fn get_user_country(&self) -> (c: Option<String>)
        ensures
            match self.user {
                Some(u) => c == u.country,
                None => c is None,
            },
    {
        match &self.user {
            Some(u) => u.country.clone(),
            None => None,
        }
    }
}

} // verus!
