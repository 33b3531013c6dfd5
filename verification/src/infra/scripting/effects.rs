//! Actions queued by plugins and how they change the application state.

use vstd::prelude::*;

use crate::domain::app::{
    nav_popped, nav_pushed, only_nav, playback_toggled, repeat_cycled, route_id_eq,
    shuffle_toggled, skipped_next, sought, ActiveBlock, App, AppRequest, IoEvent, Route, RouteId,
    SourceFocus, StatusMessage,
};
use crate::domain::plugin_api::{playback_state, route_text, PluginPopup, PluginScreenContent};
use crate::domain::user_config::{all_sources, with_theme_field, Source, Theme, ThemeColor, UserConfig};
use crate::text::{owned, str_eq};

verus! {

/// An action queued by a plugin, applied by the runner while it holds the app.
#[derive(Debug, Clone, PartialEq, Eq)]
pub enum ScriptEffect {
    Play,
    Pause,
    Next,
    Previous,
    Seek(u32),
    SetVolume(u8),
    SetShuffle(bool),
    /// Resolved at apply time (the market lookup needs the app).
    Search(String),
    /// Message, ttl in seconds.
    Notify(String, u64),
    /// Error message, ttl in seconds: always shown, and not replaced by an
    /// ordinary message until it expires.
    NotifyError(String, u64),
    /// Set (`Some`) or clear (`None`) a plugin's playbar segment.
    SetPlaybarSegment { plugin: String, text: Option<String> },
    ShowPopup(PluginPopup),
    /// Theme color overrides (element name, color).
    SetTheme(Vec<(String, ThemeColor)>),
    /// A whitelisted network request built by the API layer.
    Dispatch(IoEvent),
    /// Cycle repeat off -> context -> track.
    CycleRepeat,
    /// Unfollow a playlist as the signed-in user.
    UnfollowPlaylist(String),
    /// Navigate to a whitelisted target.
    Navigate(String),
    /// Pop the navigation stack.
    Back,
    /// Publish retained content for a registered plugin screen.
    SetScreenContent { name: String, content: PluginScreenContent },
    /// Open a registered plugin screen.
    ShowScreen(String),
    /// Close the named plugin screen if it is the current route.
    CloseScreen(String),
}

/// Screens reachable through `spotatui.navigate`, in documentation order.
pub open spec fn nav_targets() -> Seq<Seq<char>> {
    seq![
        "home"@,
        "queue"@,
        "settings"@,
        "devices"@,
        "help"@,
        "lyrics"@,
        "recently_played"@,
        "party"@,
        "analysis"@,
        "miniplayer"@,
    ]
}

/// The navigation targets as owned strings.
pub fn nav_target_list() -> (v: Vec<String>)
    ensures
        v@.map_values(|s: String| s@) == nav_targets(),
{
    let mut v: Vec<String> = Vec::new();
    v.push(owned("home"));
    v.push(owned("queue"));
    v.push(owned("settings"));
    v.push(owned("devices"));
    v.push(owned("help"));
    v.push(owned("lyrics"));
    v.push(owned("recently_played"));
    v.push(owned("party"));
    v.push(owned("analysis"));
    v.push(owned("miniplayer"));
    assert(v@.map_values(|s: String| s@) =~= nav_targets());
    v
}


/// Position of a source in the picker list.
pub open spec fn source_position(s: Source) -> int {
    match s {
        Source::Spotify => 0,
        Source::Local => 1,
        Source::Subsonic => 2,
        Source::YouTube => 3,
        Source::Radio => 4,
    }
}

/// What following navigation target `target` does to the app: the same as
/// the matching key binding.
pub open spec fn navigated(a: App, target: Seq<char>, b: App) -> bool {
    let nav = a.navigation_stack@;
    if target == "home"@ {
        only_nav(a, b, nav_pushed(nav, RouteId::Home, ActiveBlock::Empty))
    } else if target == "queue"@ {
        &&& b == App { navigation_stack: b.navigation_stack, dispatched: b.dispatched, ..a }
        &&& b.dispatched@ == a.dispatched@.push(IoEvent::GetQueue)
        &&& b.navigation_stack@ == nav_pushed(nav, RouteId::Queue, ActiveBlock::Queue)
    } else if target == "settings"@ {
        &&& b == App { navigation_stack: b.navigation_stack, requests: b.requests, ..a }
        &&& b.requests@ == a.requests@.push(AppRequest::LoadSettingsForCategory)
        &&& b.navigation_stack@ == nav_pushed(nav, RouteId::Settings, ActiveBlock::Settings)
    } else if target == "devices"@ {
        &&& b == App {
            navigation_stack: b.navigation_stack,
            dispatched: b.dispatched,
            source_list_index: b.source_list_index,
            source_device_focus: b.source_device_focus,
            ..a
        }
        &&& b.source_list_index == source_position(a.active_source)
        &&& b.source_device_focus == if a.active_source == Source::Spotify {
            SourceFocus::Devices
        } else {
            SourceFocus::Source
        }
        &&& b.navigation_stack@ == nav_pushed(nav, RouteId::SelectedDevice, ActiveBlock::SelectDevice)
        &&& b.dispatched@ == if a.active_source == Source::Spotify {
            a.dispatched@.push(IoEvent::GetDevices)
        } else {
            a.dispatched@
        }
    } else if target == "help"@ {
        only_nav(a, b, nav_pushed(nav, RouteId::HelpMenu, ActiveBlock::HelpMenu))
    } else if target == "lyrics"@ {
        only_nav(a, b, nav_pushed(nav, RouteId::LyricsView, ActiveBlock::LyricsView))
    } else if target == "recently_played"@ {
        &&& b == App { dispatched: b.dispatched, ..a }
        &&& b.dispatched@ == a.dispatched@.push(IoEvent::GetRecentlyPlayed)
    } else if target == "party"@ {
        only_nav(a, b, nav_pushed(nav, RouteId::Party, ActiveBlock::Party))
    } else if target == "analysis"@ {
        &&& b == App { requests: b.requests, ..a }
        &&& b.requests@ == a.requests@.push(AppRequest::GetAudioAnalysis)
    } else if target == "miniplayer"@ {
        if nav.last().id == RouteId::MiniPlayer {
            only_nav(a, b, nav_popped(nav))
        } else {
            only_nav(a, b, nav_pushed(nav, RouteId::MiniPlayer, ActiveBlock::MiniPlayer))
        }
    } else {
        b == a
    }
}

/// Navigating to a screen target leaves that screen on top: its
/// plugin-facing route name is the target. The mini player toggles, so this
/// holds for it when it was not already on top.
pub proof fn lemma_navigate_shows_target(a: App, t: Seq<char>, b: App)
    requires
        a.navigation_stack@.len() > 0,
        navigated(a, t, b),
        t == "home"@ || t == "queue"@ || t == "settings"@ || t == "devices"@ || t == "help"@ || t == "lyrics"@ || t == "party"@
            || (t == "miniplayer"@ && a.navigation_stack@.last().id != RouteId::MiniPlayer),
    ensures
        b.navigation_stack@.len() > 0,
        route_text(b.navigation_stack@.last().id) == t,
{
    reveal_strlit("home");
    reveal_strlit("queue");
    reveal_strlit("settings");
    reveal_strlit("devices");
    reveal_strlit("help");
    reveal_strlit("lyrics");
    reveal_strlit("recently_played");
    reveal_strlit("party");
    reveal_strlit("analysis");
    reveal_strlit("miniplayer");
}

/// Follow a navigation target exactly as its key binding does. Unknown
/// targets change nothing (the API layer rejects them).
pub fn apply_navigate(app: &mut App, target: &str)
    ensures
        navigated(*old(app), target@, *final(app)),
{
    proof {
        reveal_strlit("home");
        reveal_strlit("queue");
        reveal_strlit("settings");
        reveal_strlit("devices");
        reveal_strlit("help");
        reveal_strlit("lyrics");
        reveal_strlit("recently_played");
        reveal_strlit("party");
        reveal_strlit("analysis");
        reveal_strlit("miniplayer");
    }
    if str_eq(target, "home") {
        app.push_navigation_stack(RouteId::Home, ActiveBlock::Empty);
    } else if str_eq(target, "queue") {
        app.dispatch(IoEvent::GetQueue);
        app.push_navigation_stack(RouteId::Queue, ActiveBlock::Queue);
    } else if str_eq(target, "settings") {
        app.request(AppRequest::LoadSettingsForCategory);
        app.push_navigation_stack(RouteId::Settings, ActiveBlock::Settings);
    } else if str_eq(target, "devices") {
        app.source_list_index = app.active_source.picker_index();
        let spotify: bool = app.active_source == Source::Spotify;
        app.source_device_focus = if spotify {
            SourceFocus::Devices
        } else {
            SourceFocus::Source
        };
        app.push_navigation_stack(RouteId::SelectedDevice, ActiveBlock::SelectDevice);
        if spotify {
            app.dispatch(IoEvent::GetDevices);
        }
    } else if str_eq(target, "help") {
        app.push_navigation_stack(RouteId::HelpMenu, ActiveBlock::HelpMenu);
    } else if str_eq(target, "lyrics") {
        app.push_navigation_stack(RouteId::LyricsView, ActiveBlock::LyricsView);
    } else if str_eq(target, "recently_played") {
        app.dispatch(IoEvent::GetRecentlyPlayed);
    } else if str_eq(target, "party") {
        app.push_navigation_stack(RouteId::Party, ActiveBlock::Party);
    } else if str_eq(target, "analysis") {
        app.request(AppRequest::GetAudioAnalysis);
    } else if str_eq(target, "miniplayer") {
        let on_miniplayer: bool = app.get_current_route().id.same_as(&RouteId::MiniPlayer);
        if on_miniplayer {
            app.pop_navigation_stack();
        } else {
            app.push_navigation_stack(RouteId::MiniPlayer, ActiveBlock::MiniPlayer);
        }
    }
}


/// Whether playback is on, as the plugin-facing playback state reports it.
pub open spec fn playing_now(app: App) -> bool {
    match app.playback_snapshot {
        Some(s) => s.is_playing,
        None => match app.current_playback_context {
            Some(c) => c.is_playing,
            None => false,
        },
    }
}

/// Whether shuffle is on, as the plugin-facing playback state reports it.
pub open spec fn shuffle_now(app: App) -> bool {
    match app.playback_snapshot {
        Some(s) => s.shuffle,
        None => match app.current_playback_context {
            Some(c) => c.shuffle_state,
            None => false,
        },
    }
}

/// `true` when the current playback state indicates active playback.
pub fn effective_is_playing(app: &App) -> (b: bool)
    ensures
        b == playing_now(*app),
{
    match playback_state(app) {
        Some(p) => p.is_playing,
        None => false,
    }
}

fn effective_shuffle(app: &App) -> (b: bool)
    ensures
        b == shuffle_now(*app),
{
    match playback_state(app) {
        Some(p) => p.shuffle,
        None => false,
    }
}

/// `entries` without the entries whose key is `key`, in order.
pub open spec fn without_key<V>(entries: Seq<(String, V)>, key: Seq<char>) -> Seq<(String, V)>
    decreases entries.len(),
{
    if entries.len() == 0 {
        entries
    } else {
        (if entries[0].0@ == key {
            Seq::empty()
        } else {
            seq![entries[0]]
        }) + without_key(entries.drop_first(), key)
    }
}

/// Remove every entry keyed `key`, keeping the order of the rest.
pub fn remove_key<V>(entries: &mut Vec<(String, V)>, key: &str)
    ensures
        final(entries)@ == without_key(old(entries)@, key@),
{
    let mut rest: Vec<(String, V)> = Vec::new();
    core::mem::swap(entries, &mut rest);
    assert(entries@ + without_key(rest@, key@) =~= without_key(old(entries)@, key@));
    while rest.len() > 0
        invariant
            entries@ + without_key(rest@, key@) == without_key(old(entries)@, key@),
        decreases rest@.len(),
    {
        let ghost before = rest@;
        let e: (String, V) = rest.remove(0);
        assert(before.drop_first() =~= rest@);
        if !str_eq(e.0.as_str(), key) {
            let ghost prev = entries@;
            entries.push(e);
            assert(entries@ + without_key(rest@, key@) =~= prev + without_key(before, key@));
        } else {
            assert(entries@ + without_key(rest@, key@) =~= entries@ + without_key(before, key@));
        }
    }
    assert(without_key(rest@, key@) =~= rest@);
    assert(entries@ =~= entries@ + without_key(rest@, key@));
}

/// Set `key` to `value`: any older entry for `key` is dropped and the new
/// entry goes last.
pub fn upsert_key<V>(entries: &mut Vec<(String, V)>, key: String, value: V)
    ensures
        final(entries)@ == without_key(old(entries)@, key@).push((key, value)),
{
    remove_key(entries, key.as_str());
    entries.push((key, value));
}

/// The keys of a list of entries.
pub open spec fn entry_keys<V>(entries: Seq<(String, V)>) -> Seq<Seq<char>> {
    entries.map_values(|e: (String, V)| e.0@)
}

/// Removing a key leaves exactly the other keys, and distinct keys stay
/// distinct.
pub proof fn lemma_without_key_keys<V>(entries: Seq<(String, V)>, key: Seq<char>)
    ensures
        forall|k: Seq<char>|
            #[trigger] entry_keys(without_key(entries, key)).contains(k) <==> (entry_keys(
                entries,
            ).contains(k) && k != key),
        entry_keys(entries).no_duplicates() ==> entry_keys(without_key(entries, key)).no_duplicates(),
    decreases entries.len(),
{
    if entries.len() > 0 {
        let rest = entries.drop_first();
        lemma_without_key_keys(rest, key);
        let head: Seq<(String, V)> = if entries[0].0@ == key {
            Seq::empty()
        } else {
            seq![entries[0]]
        };
        assert(without_key(entries, key) == head + without_key(rest, key));
        assert(entry_keys(head + without_key(rest, key)) =~= entry_keys(head) + entry_keys(
            without_key(rest, key),
        ));
        assert(entry_keys(entries) =~= seq![entries[0].0@] + entry_keys(rest));
        let w = entry_keys(without_key(entries, key));
        let hk = entry_keys(head);
        let wr = entry_keys(without_key(rest, key));
        assert(w =~= hk + wr);
        assert forall|k: Seq<char>|
            #[trigger] entry_keys(without_key(entries, key)).contains(k) <==> (entry_keys(
                entries,
            ).contains(k) && k != key) by {
            if entry_keys(entries).contains(k) && k != key {
                let i = choose|i: int| 0 <= i < entry_keys(entries).len() && entry_keys(entries)[i] == k;
                if i == 0 {
                    assert(w[0] == k);
                } else {
                    assert(entry_keys(rest)[i - 1] == k);
                    assert(entry_keys(rest).contains(k));
                    assert(wr.contains(k));
                    let j = choose|j: int| 0 <= j < wr.len() && wr[j] == k;
                    assert(w[hk.len() + j] == k);
                }
            }
            if w.contains(k) {
                let i = choose|i: int| 0 <= i < w.len() && w[i] == k;
                if i < hk.len() {
                    assert(entry_keys(entries)[0] == k);
                } else {
                    assert(wr[i - hk.len()] == k);
                    assert(wr.contains(k));
                    let j = choose|j: int| 0 <= j < entry_keys(rest).len() && entry_keys(rest)[j] == k;
                    assert(entry_keys(entries)[j + 1] == k);
                }
            }
        }
        if entry_keys(entries).no_duplicates() {
            assert(entry_keys(rest).no_duplicates()) by {
                assert forall|i: int, j: int|
                    0 <= i < entry_keys(rest).len() && 0 <= j < entry_keys(rest).len() && i != j
                        implies entry_keys(rest)[i] != entry_keys(rest)[j] by {
                    assert(entry_keys(rest)[i] == entry_keys(entries)[i + 1]);
                    assert(entry_keys(rest)[j] == entry_keys(entries)[j + 1]);
                }
            }
            if head.len() == 1 {
                assert(!entry_keys(rest).contains(entries[0].0@)) by {
                    if entry_keys(rest).contains(entries[0].0@) {
                        let i = choose|i: int| 0 <= i < entry_keys(rest).len() && entry_keys(rest)[i] == entries[0].0@;
                        assert(entry_keys(entries)[i + 1] == entry_keys(entries)[0]);
                    }
                }
                let w = entry_keys(without_key(entries, key));
                assert forall|i: int, j: int| 0 <= i < w.len() && 0 <= j < w.len() && i != j implies w[i] != w[j] by {
                    if i == 0 && j > 0 {
                        assert(entry_keys(without_key(rest, key)).contains(w[j])) by {
                            assert(entry_keys(without_key(rest, key))[j - 1] == w[j]);
                        }
                    } else if j == 0 && i > 0 {
                        assert(entry_keys(without_key(rest, key)).contains(w[i])) by {
                            assert(entry_keys(without_key(rest, key))[i - 1] == w[i]);
                        }
                    } else if i > 0 && j > 0 {
                        assert(entry_keys(without_key(rest, key))[i - 1] == w[i]);
                        assert(entry_keys(without_key(rest, key))[j - 1] == w[j]);
                    }
                }
            } else {
                assert(without_key(entries, key) =~= without_key(rest, key));
            }
        }
    }
}

/// Setting a key keeps the keys distinct; afterwards the key appears
/// exactly once, last, with the new value.
pub proof fn lemma_upsert_keeps_keys_distinct<V>(entries: Seq<(String, V)>, key: String, value: V)
    requires
        entry_keys(entries).no_duplicates(),
    ensures
        entry_keys(without_key(entries, key@).push((key, value))).no_duplicates(),
        without_key(entries, key@).push((key, value)).last() == (key, value),
        !entry_keys(without_key(entries, key@)).contains(key@),
{
    lemma_without_key_keys(entries, key@);
    let w = without_key(entries, key@);
    let r = w.push((key, value));
    assert(entry_keys(r) =~= entry_keys(w).push(key@));
    assert forall|i: int, j: int|
        0 <= i < entry_keys(r).len() && 0 <= j < entry_keys(r).len() && i != j implies entry_keys(
        r,
    )[i] != entry_keys(r)[j] by {
        if i == w.len() as int {
            assert(entry_keys(w)[j] == entry_keys(r)[j]);
            assert(entry_keys(w).contains(entry_keys(r)[j]));
        } else if j == w.len() as int {
            assert(entry_keys(w)[i] == entry_keys(r)[i]);
            assert(entry_keys(w).contains(entry_keys(r)[i]));
        } else {
            assert(entry_keys(w)[i] == entry_keys(r)[i]);
            assert(entry_keys(w)[j] == entry_keys(r)[j]);
        }
    }
}

/// The theme after applying the overrides in order.
pub open spec fn themed(theme: Theme, pairs: Seq<(String, ThemeColor)>) -> Theme
    decreases pairs.len(),
{
    if pairs.len() == 0 {
        theme
    } else {
        with_theme_field(themed(theme, pairs.drop_last()), pairs.last().0@, pairs.last().1)
    }
}

/// `b` is `a` with one more runtime request, `op`.
pub open spec fn only_request(a: App, b: App, op: AppRequest) -> bool {
    &&& b == App { requests: b.requests, ..a }
    &&& b.requests@ == a.requests@.push(op)
}

/// `b` is `a` with one more network request, `ev`.
pub open spec fn only_dispatch(a: App, b: App, ev: IoEvent) -> bool {
    &&& b == App { dispatched: b.dispatched, ..a }
    &&& b.dispatched@ == a.dispatched@.push(ev)
}

/// The status line after an ordinary message: an error message that is
/// showing stays.
pub open spec fn after_notify(a: App, text: String, ttl: u64) -> Option<StatusMessage> {
    if a.status_message matches Some(m) && m.is_error {
        a.status_message
    } else {
        Some(StatusMessage { text, ttl_secs: ttl, is_error: false })
    }
}

/// What applying effect `e` to `a` yields, `b`.
pub open spec fn effect_applied(a: App, e: ScriptEffect, b: App) -> bool {
    match e {
        ScriptEffect::Play => if playing_now(a) {
            b == a
        } else {
            playback_toggled(a, b)
        },
        ScriptEffect::Pause => if playing_now(a) {
            playback_toggled(a, b)
        } else {
            b == a
        },
        ScriptEffect::Next => skipped_next(a, b),
        ScriptEffect::Previous => only_request(a, b, AppRequest::PreviousTrack),
        ScriptEffect::Seek(ms) => sought(a, b, ms),
        ScriptEffect::SetVolume(v) => b == App { pending_volume: Some(v), ..a },
        ScriptEffect::SetShuffle(desired) => if shuffle_now(a) != desired {
            shuffle_toggled(a, b)
        } else {
            b == a
        },
        ScriptEffect::Search(q) => {
            &&& b == App { dispatched: b.dispatched, ..a }
            &&& b.dispatched@.len() == a.dispatched@.len() + 1
            &&& b.dispatched@.drop_last() == a.dispatched@
            &&& b.dispatched@.last() matches IoEvent::GetSearchResults(q2, c) && q2 == q
                && match a.user {
                Some(u) => c == u.country,
                None => c is None,
            }
        },
        ScriptEffect::Notify(m, t) => b == App { status_message: after_notify(a, m, t), ..a },
        ScriptEffect::NotifyError(m, t) => b == App {
            status_message: Some(StatusMessage { text: m, ttl_secs: t, is_error: true }),
            ..a
        },
        ScriptEffect::SetPlaybarSegment { plugin, text } => {
            &&& b == App { plugin_playbar_segments: b.plugin_playbar_segments, ..a }
            &&& b.plugin_playbar_segments@ == match text {
                Some(t) => without_key(a.plugin_playbar_segments@, plugin@).push((plugin, t)),
                None => without_key(a.plugin_playbar_segments@, plugin@),
            }
        },
        ScriptEffect::ShowPopup(p) => b == App {
            plugin_popup: Some(p),
            plugin_popup_scroll: 0,
            ..a
        },
        ScriptEffect::SetTheme(pairs) => b == App {
            user_config: UserConfig { theme: themed(a.user_config.theme, pairs@), ..a.user_config },
            ..a
        },
        ScriptEffect::Dispatch(ev) => only_dispatch(a, b, ev),
        ScriptEffect::CycleRepeat => repeat_cycled(a, b),
        ScriptEffect::UnfollowPlaylist(pid) => match a.user {
            Some(u) => {
                &&& b == App { dispatched: b.dispatched, ..a }
                &&& b.dispatched@.len() == a.dispatched@.len() + 1
                &&& b.dispatched@.drop_last() == a.dispatched@
                &&& b.dispatched@.last() matches IoEvent::UserUnfollowPlaylist(uid, p) && uid@
                    == u.id@ && p == pid
            },
            None => {
                &&& b == App { status_message: b.status_message, ..a }
                &&& b.status_message matches Some(m) && m.is_error && m.ttl_secs == 4 && m.text@
                    == "plugin unfollow_playlist: user profile not loaded yet"@
            },
        },
        ScriptEffect::Navigate(t) => navigated(a, t@, b),
        ScriptEffect::Back => only_nav(a, b, nav_popped(a.navigation_stack@)),
        ScriptEffect::SetScreenContent { name, content } => {
            &&& b == App { plugin_screens: b.plugin_screens, ..a }
            &&& b.plugin_screens@ == without_key(a.plugin_screens@, name@).push((name, content))
        },
        ScriptEffect::ShowScreen(name) => {
            &&& b == App {
                navigation_stack: b.navigation_stack,
                plugin_screen_scroll: 0,
                ..a
            }
            &&& b.navigation_stack@ == nav_pushed(
                a.navigation_stack@,
                RouteId::PluginScreen(name),
                ActiveBlock::PluginScreen,
            )
        },
        ScriptEffect::CloseScreen(name) => if route_id_eq(
            a.navigation_stack@.last().id,
            RouteId::PluginScreen(name),
        ) {
            only_nav(a, b, nav_popped(a.navigation_stack@))
        } else {
            b == a
        },
    }
}

/// Apply one plugin effect to the app, the way the equivalent key binding
/// or app operation does.
pub fn apply_effect(effect: ScriptEffect, app: &mut App)
    ensures
        effect_applied(*old(app), effect, *final(app)),
{
    match effect {
        ScriptEffect::Play => {
            if !effective_is_playing(app) {
                app.toggle_playback();
            }
        },
        ScriptEffect::Pause => {
            if effective_is_playing(app) {
                app.toggle_playback();
            }
        },
        ScriptEffect::Next => app.next_track(),
        ScriptEffect::Previous => app.previous_track(),
        ScriptEffect::Seek(ms) => app.seek_to(ms),
        ScriptEffect::SetVolume(v) => app.set_volume_percent(v),
        ScriptEffect::SetShuffle(desired) => {
            if effective_shuffle(app) != desired {
                app.shuffle();
            }
        },
        ScriptEffect::Search(query) => {
            let country: Option<String> = app.get_user_country();
            app.dispatch(IoEvent::GetSearchResults(query, country));
            assert(app.dispatched@.drop_last() =~= old(app).dispatched@);
        },
        ScriptEffect::Notify(msg, ttl) => app.set_status_message(msg, ttl),
        ScriptEffect::NotifyError(msg, ttl) => app.set_error_status_message(msg, ttl),
        ScriptEffect::SetPlaybarSegment { plugin, text } => match text {
            Some(t) => upsert_key(&mut app.plugin_playbar_segments, plugin, t),
            None => remove_key(&mut app.plugin_playbar_segments, plugin.as_str()),
        },
        ScriptEffect::ShowPopup(popup) => {
            app.plugin_popup = Some(popup);
            app.plugin_popup_scroll = 0;
        },
        ScriptEffect::SetTheme(pairs) => {
            let mut i: usize = 0;
            while i < pairs.len()
                invariant
                    i <= pairs@.len(),
                    *app == (App {
                        user_config: UserConfig {
                            theme: themed(old(app).user_config.theme, pairs@.subrange(0, i as int)),
                            ..old(app).user_config
                        },
                        ..*old(app)
                    }),
                decreases pairs@.len() - i,
            {
                let ghost prefix = pairs@.subrange(0, i + 1);
                assert(prefix.drop_last() =~= pairs@.subrange(0, i as int));
                app.user_config.theme.set_field(pairs[i].0.as_str(), pairs[i].1);
                i = i + 1;
            }
            assert(pairs@.subrange(0, pairs@.len() as int) =~= pairs@);
        },
        ScriptEffect::Dispatch(event) => app.dispatch(event),
        ScriptEffect::CycleRepeat => app.repeat(),
        ScriptEffect::Navigate(target) => apply_navigate(app, target.as_str()),
        ScriptEffect::Back => {
            app.pop_navigation_stack();
        },
        ScriptEffect::SetScreenContent { name, content } => {
            upsert_key(&mut app.plugin_screens, name, content);
        },
        ScriptEffect::ShowScreen(name) => {
            app.push_navigation_stack(RouteId::PluginScreen(name), ActiveBlock::PluginScreen);
            app.plugin_screen_scroll = 0;
        },
        ScriptEffect::CloseScreen(name) => {
            let target: RouteId = RouteId::PluginScreen(name);
            let here: bool = app.get_current_route().id.same_as(&target);
            if here {
                app.pop_navigation_stack();
            }
        },
        ScriptEffect::UnfollowPlaylist(playlist_id) => {
            let user_id: Option<String> = match &app.user {
                Some(u) => Some(u.id.clone()),
                None => None,
            };
            match user_id {
                Some(uid) => {
                    app.dispatch(IoEvent::UserUnfollowPlaylist(uid, playlist_id));
                    assert(app.dispatched@.drop_last() =~= old(app).dispatched@);
                },
                None => app.set_error_status_message(
                    owned("plugin unfollow_playlist: user profile not loaded yet"),
                    4,
                ),
            }
        },
    }
}

/// Drain queued effects into the app, in order.
pub fn apply_effects(effects: Vec<ScriptEffect>, app: &mut App)
    ensures
        exists|states: Seq<App>|
            {
                &&& states.len() == effects@.len() + 1
                &&& states[0] == *old(app)
                &&& states.last() == *final(app)
                &&& forall|i: int|
                    0 <= i < effects@.len() ==> effect_applied(
                        #[trigger] states[i],
                        effects@[i],
                        states[i + 1],
                    )
            },
{
    let mut rest: Vec<ScriptEffect> = effects;
    let ghost mut states: Seq<App> = seq![*app];
    let ghost all = rest@;
    while rest.len() > 0
        invariant
            states.len() >= 1,
            states[0] == *old(app),
            states.last() == *app,
            states.len() - 1 + rest@.len() == all.len(),
            rest@ == all.subrange(states.len() - 1, all.len() as int),
            forall|i: int|
                0 <= i < states.len() - 1 ==> effect_applied(#[trigger] states[i], all[i], states[i + 1]),
        decreases rest@.len(),
    {
        let ghost before = rest@;
        let effect: ScriptEffect = rest.remove(0);
        let ghost k = states.len() - 1;
        assert(effect == all[k]);
        apply_effect(effect, app);
        proof {
            let old_states = states;
            states = states.push(*app);
            assert forall|i: int|
                0 <= i < states.len() - 1 implies effect_applied(
                #[trigger] states[i],
                all[i],
                states[i + 1],
            ) by {
                if i < k {
                    assert(states[i] == old_states[i]);
                    assert(states[i + 1] == old_states[i + 1]);
                }
            }
            assert(rest@ =~= all.subrange(states.len() - 1, all.len() as int));
        }
    }
    assert(states.len() == all.len() + 1);
}

} // verus!

