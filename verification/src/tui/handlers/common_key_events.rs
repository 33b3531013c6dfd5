//! Key predicates and list-selection moves shared by the screen handlers.

use vstd::prelude::*;

use crate::domain::app::{ActiveBlock, App, RouteId};
use crate::domain::user_config::KeyBindings;
use crate::tui::event::Key;

verus! {

/// The keys that move focus left: the configured one, the arrow and ctrl-b.
pub open spec fn is_left_key(key: Key, keys: KeyBindings) -> bool {
    key == keys.left || key == Key::Left || key == Key::Ctrl('b')
}

/// The keys that move focus right: the configured one, the arrow and ctrl-f.
pub open spec fn is_right_key(key: Key, keys: KeyBindings) -> bool {
    key == keys.right || key == Key::Right || key == Key::Ctrl('f')
}

/// The keys that move the selection up: the configured one, the arrow and ctrl-p.
pub open spec fn is_up_key(key: Key, keys: KeyBindings) -> bool {
    key == keys.up || key == Key::Up || key == Key::Ctrl('p')
}

/// The keys that move the selection down: the configured one, the arrow and ctrl-n.
pub open spec fn is_down_key(key: Key, keys: KeyBindings) -> bool {
    key == keys.down || key == Key::Down || key == Key::Ctrl('n')
}

pub fn left_event(key: Key, keys: &KeyBindings) -> (b: bool)
    ensures
        b == is_left_key(key, *keys),
{
    key == keys.left || key == Key::Left || key == Key::Ctrl('b')
}

pub fn right_event(key: Key, keys: &KeyBindings) -> (b: bool)
    ensures
        b == is_right_key(key, *keys),
{
    key == keys.right || key == Key::Right || key == Key::Ctrl('f')
}

pub fn up_event(key: Key, keys: &KeyBindings) -> (b: bool)
    ensures
        b == is_up_key(key, *keys),
{
    key == keys.up || key == Key::Up || key == Key::Ctrl('p')
}

pub fn down_event(key: Key, keys: &KeyBindings) -> (b: bool)
    ensures
        b == is_down_key(key, *keys),
{
    key == keys.down || key == Key::Down || key == Key::Ctrl('n')
}

/// `H` jumps to the top of a list.
pub fn high_event(key: Key) -> (b: bool)
    ensures
        b == (key == Key::Char('H')),
{
    key == Key::Char('H')
}

/// `M` jumps to the middle of a list.
pub fn middle_event(key: Key) -> (b: bool)
    ensures
        b == (key == Key::Char('M')),
{
    key == Key::Char('M')
}

/// `L` jumps to the bottom of a list.
pub fn low_event(key: Key) -> (b: bool)
    ensures
        b == (key == Key::Char('L')),
{
    key == Key::Char('L')
}

/// The selection after moving down a list of `len` rows: the next row,
/// wrapping from the last row (or beyond it) to the first.
pub open spec fn index_after_down(len: nat, selected: Option<usize>) -> int {
    match selected {
        Some(i) => if len > 0 && i + 1 < len {
            i + 1
        } else {
            0
        },
        None => 0,
    }
}

/// The selection after moving up a list of `len` rows: the previous row,
/// wrapping from the first row to the last.
pub open spec fn index_after_up(len: nat, selected: Option<usize>) -> int {
    match selected {
        Some(i) => if len == 0 {
            0
        } else if i > 0 {
            i - 1
        } else {
            len - 1
        },
        None => 0,
    }
}

/// The middle row of a non-empty list of `len` rows (the upper one of the
/// two middle rows when `len` is even).
pub open spec fn middle_index(len: nat) -> int {
    if len % 2 == 0 {
        len / 2 - 1
    } else {
        (len / 2) as int
    }
}

pub fn on_down_press_handler<T>(selection_data: &[T], selection_index: Option<usize>) -> (next: usize)
    ensures
        next == index_after_down(selection_data@.len(), selection_index),
        selection_data@.len() > 0 ==> next < selection_data@.len(),
{
    match selection_index {
        Some(i) => {
            let len: usize = selection_data.len();
            if len > 0 && i < len - 1 {
                i + 1
            } else {
                0
            }
        },
        None => 0,
    }
}

pub fn on_up_press_handler<T>(selection_data: &[T], selection_index: Option<usize>) -> (next: usize)
    ensures
        next == index_after_up(selection_data@.len(), selection_index),
        (selection_index matches Some(i) && i <= selection_data@.len()) ==> (
        selection_data@.len() > 0 ==> next < selection_data@.len()),
{
    match selection_index {
        Some(i) => {
            let len: usize = selection_data.len();
            if len == 0 {
                0
            } else if i > 0 {
                i - 1
            } else {
                len - 1
            }
        },
        None => 0,
    }
}

pub fn on_high_press_handler() -> (next: usize)
    ensures
        next == 0,
{
    0
}

/// The middle row; the list must not be empty.
pub fn on_middle_press_handler<T>(selection_data: &[T]) -> (next: usize)
    requires
        selection_data@.len() > 0,
    ensures
        next == middle_index(selection_data@.len()),
        next < selection_data@.len(),
{
    let len: usize = selection_data.len();
    let mut index: usize = len / 2;
    if len % 2 == 0 {
        index = index - 1;
    }
    index
}

/// The last row; the list must not be empty.
pub fn on_low_press_handler<T>(selection_data: &[T]) -> (next: usize)
    requires
        selection_data@.len() > 0,
    ensures
        next == selection_data@.len() - 1,
{
    selection_data.len() - 1
}

/// Moving down then up, or up then down, returns to the row that was
/// selected, for every row of a non-empty list.
pub proof fn lemma_up_and_down_undo_each_other(len: nat, i: usize)
    requires
        i < len <= usize::MAX,
    ensures
        index_after_up(len, Some(index_after_down(len, Some(i)) as usize)) == i,
        index_after_down(len, Some(index_after_up(len, Some(i)) as usize)) == i,
        0 <= index_after_down(len, Some(i)) < len,
        0 <= index_after_up(len, Some(i)) < len,
{
    let d = index_after_down(len, Some(i));
    let u = index_after_up(len, Some(i));
    assert(d as usize == d);
    assert(u as usize == u);
}

/// The content block that belongs to a screen, which moving right from the
/// sidebar focuses. Screens without one keep the sidebar focused.
pub open spec fn content_block(id: RouteId) -> Option<ActiveBlock> {
    match id {
        RouteId::AlbumTracks => Some(ActiveBlock::AlbumTracks),
        RouteId::TrackTable => Some(ActiveBlock::TrackTable),
        RouteId::Podcasts => Some(ActiveBlock::Podcasts),
        RouteId::Recommendations => Some(ActiveBlock::TrackTable),
        RouteId::AlbumList => Some(ActiveBlock::AlbumList),
        RouteId::PodcastEpisodes => Some(ActiveBlock::EpisodeTable),
        RouteId::Artists => Some(ActiveBlock::Artists),
        RouteId::RecentlyPlayed => Some(ActiveBlock::RecentlyPlayed),
        RouteId::Search => Some(ActiveBlock::SearchResultBlock),
        RouteId::Artist => Some(ActiveBlock::ArtistBlock),
        RouteId::Home => Some(ActiveBlock::Home),
        RouteId::Discover => Some(ActiveBlock::Discover),
        RouteId::Friends => Some(ActiveBlock::Friends),
        RouteId::LocalBrowser => Some(ActiveBlock::LocalBrowser),
        RouteId::Stats => Some(ActiveBlock::Stats),
        RouteId::Queue => Some(ActiveBlock::Queue),
        RouteId::PluginScreen(_) => Some(ActiveBlock::PluginScreen),
        _ => None,
    }
}

fn content_block_of(id: &RouteId) -> (b: Option<ActiveBlock>)
    ensures
        b == content_block(*id),
{
    match id {
        RouteId::AlbumTracks => Some(ActiveBlock::AlbumTracks),
        RouteId::TrackTable => Some(ActiveBlock::TrackTable),
        RouteId::Podcasts => Some(ActiveBlock::Podcasts),
        RouteId::Recommendations => Some(ActiveBlock::TrackTable),
        RouteId::AlbumList => Some(ActiveBlock::AlbumList),
        RouteId::PodcastEpisodes => Some(ActiveBlock::EpisodeTable),
        RouteId::Artists => Some(ActiveBlock::Artists),
        RouteId::RecentlyPlayed => Some(ActiveBlock::RecentlyPlayed),
        RouteId::Search => Some(ActiveBlock::SearchResultBlock),
        RouteId::Artist => Some(ActiveBlock::ArtistBlock),
        RouteId::Home => Some(ActiveBlock::Home),
        RouteId::Discover => Some(ActiveBlock::Discover),
        RouteId::Friends => Some(ActiveBlock::Friends),
        RouteId::LocalBrowser => Some(ActiveBlock::LocalBrowser),
        RouteId::Stats => Some(ActiveBlock::Stats),
        RouteId::Queue => Some(ActiveBlock::Queue),
        RouteId::PluginScreen(_) => Some(ActiveBlock::PluginScreen),
        _ => None,
    }
}

/// `b` is `a` with only the top route's blocks set to `active` and `hovered`.
pub open spec fn focus_set(a: App, b: App, active: ActiveBlock, hovered: ActiveBlock) -> bool {
    let s = a.navigation_stack@;
    &&& b == App { navigation_stack: b.navigation_stack, ..a }
    &&& b.navigation_stack@ == s.drop_last().push(
        crate::domain::app::Route { id: s.last().id, active_block: active, hovered_block: hovered },
    )
}

/// Moving left puts the focus back on the sidebar, hovering the library.
pub open spec fn left_handled(a: App, b: App) -> bool {
    focus_set(a, b, ActiveBlock::Empty, ActiveBlock::Library)
}

/// Moving right from the sidebar focuses the current screen's content.
pub open spec fn right_handled(a: App, b: App) -> bool {
    let top = a.navigation_stack@.last();
    if (top.hovered_block == ActiveBlock::Library || top.hovered_block == ActiveBlock::MyPlaylists)
        && content_block(top.id) is Some {
        focus_set(a, b, content_block(top.id)->0, content_block(top.id)->0)
    } else {
        b == a
    }
}

pub fn handle_left_event(app: &mut App)
    ensures
        left_handled(*old(app), *final(app)),
{
    app.set_current_route_state(Some(ActiveBlock::Empty), Some(ActiveBlock::Library));
    assert(app.navigation_stack@ =~= old(app).navigation_stack@.drop_last().push(
        app.navigation_stack@.last(),
    ));
}

pub fn handle_right_event(app: &mut App)
    ensures
        right_handled(*old(app), *final(app)),
{
    let hovered: ActiveBlock = app.get_current_route().hovered_block;
    if hovered == ActiveBlock::Library || hovered == ActiveBlock::MyPlaylists {
        let target: Option<ActiveBlock> = content_block_of(&app.get_current_route().id);
        if let Some(block) = target {
            app.set_current_route_state(Some(block), Some(block));
            assert(app.navigation_stack@ =~= old(app).navigation_stack@.drop_last().push(
                app.navigation_stack@.last(),
            ));
        }
    }
}

} // verus!
