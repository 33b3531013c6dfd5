//! Keys on the episode table of a podcast.

use vstd::prelude::*;

use crate::domain::app::{ActiveBlock, App, AppRequest, EpisodeTableContext, IoEvent, Library,
    ScrollableResultPages, SelectedShow};
use crate::domain::pagination::Paged;
use crate::domain::plugin_api::EpisodeInfo;
use crate::domain::user_config::KeyBindings;
use crate::tui::event::Key;
use crate::tui::handlers::common_key_events::{
    down_event, handle_left_event, high_event, index_after_down, index_after_up, is_down_key,
    is_left_key, is_up_key, left_event, left_handled, low_event, middle_event, middle_index,
    on_down_press_handler, on_high_press_handler, on_low_press_handler, on_middle_press_handler,
    on_up_press_handler, up_event,
};

verus! {

/// What a key does on the episode table.
#[derive(Debug, Clone, Copy, PartialEq, Eq, Structural)]
pub enum EpisodeTableKey {
    MoveLeft,
    MoveDown,
    MoveUp,
    JumpToTop,
    JumpToMiddle,
    JumpToBottom,
    Play,
    NextPage,
    PreviousPage,
    ReverseOrder,
    FollowShow,
    UnfollowShow,
    JumpToEnd,
    JumpToStart,
    Ignored,
}

/// The binding a key hits, earlier bindings taking precedence.
pub open spec fn episode_table_key(key: Key, keys: KeyBindings) -> EpisodeTableKey {
    if is_left_key(key, keys) {
        EpisodeTableKey::MoveLeft
    } else if is_down_key(key, keys) {
        EpisodeTableKey::MoveDown
    } else if is_up_key(key, keys) {
        EpisodeTableKey::MoveUp
    } else if key == Key::Char('H') {
        EpisodeTableKey::JumpToTop
    } else if key == Key::Char('M') {
        EpisodeTableKey::JumpToMiddle
    } else if key == Key::Char('L') {
        EpisodeTableKey::JumpToBottom
    } else if key == Key::Enter {
        EpisodeTableKey::Play
    } else if key == keys.next_page {
        EpisodeTableKey::NextPage
    } else if key == keys.previous_page {
        EpisodeTableKey::PreviousPage
    } else if key == Key::Char('S') {
        EpisodeTableKey::ReverseOrder
    } else if key == Key::Char('s') {
        EpisodeTableKey::FollowShow
    } else if key == Key::Char('D') {
        EpisodeTableKey::UnfollowShow
    } else if key == Key::Ctrl('e') {
        EpisodeTableKey::JumpToEnd
    } else if key == Key::Ctrl('a') {
        EpisodeTableKey::JumpToStart
    } else {
        EpisodeTableKey::Ignored
    }
}

fn classify(key: Key, keys: &KeyBindings) -> (k: EpisodeTableKey)
    ensures
        k == episode_table_key(key, *keys),
{
    if left_event(key, keys) {
        EpisodeTableKey::MoveLeft
    } else if down_event(key, keys) {
        EpisodeTableKey::MoveDown
    } else if up_event(key, keys) {
        EpisodeTableKey::MoveUp
    } else if high_event(key) {
        EpisodeTableKey::JumpToTop
    } else if middle_event(key) {
        EpisodeTableKey::JumpToMiddle
    } else if low_event(key) {
        EpisodeTableKey::JumpToBottom
    } else if key == Key::Enter {
        EpisodeTableKey::Play
    } else if key == keys.next_page {
        EpisodeTableKey::NextPage
    } else if key == keys.previous_page {
        EpisodeTableKey::PreviousPage
    } else if key == Key::Char('S') {
        EpisodeTableKey::ReverseOrder
    } else if key == Key::Char('s') {
        EpisodeTableKey::FollowShow
    } else if key == Key::Char('D') {
        EpisodeTableKey::UnfollowShow
    } else if key == Key::Ctrl('e') {
        EpisodeTableKey::JumpToEnd
    } else if key == Key::Ctrl('a') {
        EpisodeTableKey::JumpToStart
    } else {
        EpisodeTableKey::Ignored
    }
}

/// The page of episodes on screen, if one has been fetched.
pub open spec fn current_episodes(a: App) -> Option<Paged<EpisodeInfo>> {
    let s = a.library.show_episodes;
    if s.index < s.pages@.len() {
        Some(s.pages@[s.index as int])
    } else {
        None
    }
}

/// The uris of the episodes that have one, in list order.
pub open spec fn kept_uris(items: Seq<EpisodeInfo>) -> Seq<String>
    decreases items.len(),
{
    if items.len() == 0 {
        Seq::empty()
    } else {
        kept_uris(items.drop_last()) + match items.last().uri {
            Some(u) => seq![u],
            None => Seq::empty(),
        }
    }
}

/// Where playback starts in the kept uris: the selected row's position
/// among the rows that have a uri, or none when the selected row has none.
pub open spec fn play_offset(items: Seq<EpisodeInfo>, selected: usize) -> Option<usize> {
    if selected < items.len() && items[selected as int].uri is Some {
        Some(kept_uris(items.subrange(0, selected as int)).len() as usize)
    } else {
        None
    }
}

/// The id of the show whose episodes are listed, if it has one.
pub open spec fn listed_show_id(a: App) -> Option<String> {
    let show = match a.episode_table_context {
        EpisodeTableContext::Full => a.selected_show_full,
        EpisodeTableContext::Simplified => a.selected_show_simplified,
    };
    match show {
        Some(s) => s.show.id,
        None => None,
    }
}

/// The view of an optional id.
pub open spec fn id_view(id: Option<String>) -> Option<Seq<char>> {
    match id {
        Some(s) => Some(s@),
        None => None,
    }
}

/// `j` is the first row of `items` whose id is `id`.
pub open spec fn first_with_id(items: Seq<EpisodeInfo>, id: Option<Seq<char>>, j: int) -> bool {
    &&& 0 <= j < items.len()
    &&& id_view(items[j].id) == id
    &&& forall|k: int| 0 <= k < j ==> id_view(#[trigger] items[k].id) != id
}

/// `b` is `a` with only the selected episode row changed, to `i`.
pub open spec fn row_selected(a: App, b: App, i: int) -> bool {
    b == App { episode_list_index: i as usize, ..a }
}

/// `b` is `a` with one more runtime request, `op`.
pub open spec fn requested(a: App, b: App, op: AppRequest) -> bool {
    &&& b == App { requests: b.requests, ..a }
    &&& b.requests@ == a.requests@.push(op)
}

/// The list reversed in place on screen, with the selection following the
/// selected episode (by id) and falling back to the first row.
pub open spec fn order_reversed(a: App, b: App) -> bool {
    match current_episodes(a) {
        Some(p) => {
            let k = a.library.show_episodes.index as int;
            let pages = b.library.show_episodes.pages@;
            let rev = p.items@.reverse();
            &&& b == App {
                library: Library {
                    show_episodes: ScrollableResultPages {
                        pages: b.library.show_episodes.pages,
                        ..a.library.show_episodes
                    },
                    ..a.library
                },
                episode_list_index: b.episode_list_index,
                ..a
            }
            &&& pages.len() == a.library.show_episodes.pages@.len()
            &&& forall|j: int|
                0 <= j < pages.len() && j != k ==> pages[j] == a.library.show_episodes.pages@[j]
            &&& pages[k] == Paged { items: pages[k].items, ..p }
            &&& pages[k].items@ == rev
            &&& if a.episode_list_index < p.items@.len() {
                first_with_id(rev, id_view(p.items@[a.episode_list_index as int].id), b.episode_list_index as int)
            } else {
                b.episode_list_index == 0
            }
        },
        None => row_selected(a, b, 0),
    }
}

/// No two rows share an id.
pub open spec fn distinct_ids(items: Seq<EpisodeInfo>) -> bool {
    forall|i: int, j: int|
        0 <= i < items.len() && 0 <= j < items.len() && i != j ==> id_view(#[trigger] items[i].id)
            != id_view(#[trigger] items[j].id)
}

/// Reversing the list twice brings back the rows in their order (every
/// other page untouched); when no two rows share an id, the selected row
/// comes back as well.
pub proof fn lemma_reverse_twice_restores(a: App, b: App, c: App)
    requires
        order_reversed(a, b),
        order_reversed(b, c),
        (current_episodes(a) is Some),
    ensures
        current_episodes(c) matches Some(q) && q.items@ == current_episodes(a)->0.items@ && q
            == (Paged { items: q.items, ..current_episodes(a)->0 }),
        c.library.show_episodes.pages@.len() == a.library.show_episodes.pages@.len(),
        forall|j: int|
            0 <= j < a.library.show_episodes.pages@.len() && j != a.library.show_episodes.index
                ==> c.library.show_episodes.pages@[j] == a.library.show_episodes.pages@[j],
        (a.episode_list_index < current_episodes(a)->0.items@.len() && distinct_ids(
            current_episodes(a)->0.items@,
        )) ==> c.episode_list_index == a.episode_list_index,
{
    let p = current_episodes(a)->0;
    let k = a.library.show_episodes.index as int;
    let rev = p.items@.reverse();
    assert(current_episodes(b) is Some);
    let pb = current_episodes(b)->0;
    assert(pb.items@ == rev);
    let back = pb.items@.reverse();
    assert(back =~= p.items@);
    if a.episode_list_index < p.items@.len() && distinct_ids(p.items@) {
        let n = p.items@.len() as int;
        let sel = a.episode_list_index as int;
        let bi = b.episode_list_index as int;
        assert(first_with_id(rev, id_view(p.items@[sel].id), bi));
        assert(rev[bi] == p.items@[n - 1 - bi]);
        assert(n - 1 - bi == sel);
        assert(b.episode_list_index < pb.items@.len());
        let ci = c.episode_list_index as int;
        assert(first_with_id(back, id_view(rev[bi].id), ci));
        assert(back[ci] == p.items@[ci]);
        assert(ci == sel);
    }
}

/// What a key press on the episode table does to the app.
pub open spec fn episode_table_handled(a: App, key: Key, b: App) -> bool {
    let page = current_episodes(a);
    let len = match page {
        Some(p) => p.items@.len(),
        None => 0,
    };
    match episode_table_key(key, a.user_config.keys) {
        EpisodeTableKey::MoveLeft => left_handled(a, b),
        EpisodeTableKey::MoveDown => if page is Some {
            row_selected(a, b, index_after_down(len, Some(a.episode_list_index)))
        } else {
            b == a
        },
        EpisodeTableKey::MoveUp => if page is Some {
            row_selected(a, b, index_after_up(len, Some(a.episode_list_index)))
        } else {
            b == a
        },
        EpisodeTableKey::JumpToTop => if page is Some {
            row_selected(a, b, 0)
        } else {
            b == a
        },
        EpisodeTableKey::JumpToMiddle => if page is Some {
            row_selected(a, b, middle_index(len))
        } else {
            b == a
        },
        EpisodeTableKey::JumpToBottom | EpisodeTableKey::JumpToEnd => if page is Some {
            row_selected(a, b, len - 1)
        } else {
            b == a
        },
        EpisodeTableKey::Play => match page {
            Some(p) => {
                &&& b == App { dispatched: b.dispatched, ..a }
                &&& b.dispatched@.len() == a.dispatched@.len() + 1
                &&& b.dispatched@.drop_last() == a.dispatched@
                &&& b.dispatched@.last() matches IoEvent::StartPlayback(ctx, Some(uris), offset)
                    && ctx is None && uris@ == kept_uris(p.items@)
                    && offset == play_offset(p.items@, a.episode_list_index)
            },
            None => b == a,
        },
        EpisodeTableKey::NextPage => match listed_show_id(a) {
            Some(id) => requested(a, b, AppRequest::EpisodeTableNext(id)),
            None => b == a,
        },
        EpisodeTableKey::PreviousPage => requested(a, b, AppRequest::EpisodeTablePrevious),
        EpisodeTableKey::ReverseOrder => order_reversed(a, b),
        EpisodeTableKey::FollowShow => requested(a, b, AppRequest::FollowShow(ActiveBlock::EpisodeTable)),
        EpisodeTableKey::UnfollowShow => requested(
            a,
            b,
            AppRequest::UnfollowShow(ActiveBlock::EpisodeTable),
        ),
        EpisodeTableKey::JumpToStart => row_selected(a, b, 0),
        EpisodeTableKey::Ignored => b == a,
    }
}

/// The keys that read the last or the middle row of the page on screen;
/// the page must not be empty for them.
pub open spec fn needs_rows(key: EpisodeTableKey) -> bool {
    key == EpisodeTableKey::JumpToMiddle || key == EpisodeTableKey::JumpToBottom || key
        == EpisodeTableKey::JumpToEnd
}

pub fn handler(key: Key, app: &mut App)
    requires
        needs_rows(episode_table_key(key, old(app).user_config.keys)) ==> match current_episodes(
            *old(app),
        ) {
            Some(p) => p.items@.len() > 0,
            None => true,
        },
    ensures
        episode_table_handled(*old(app), key, *final(app)),
{
    let action: EpisodeTableKey = classify(key, &app.user_config.keys);
    match action {
        EpisodeTableKey::MoveLeft => handle_left_event(app),
        EpisodeTableKey::MoveDown => {
            if let Some(episodes) = app.library.show_episodes.get_results(None) {
                let next: usize = on_down_press_handler(
                    episodes.items.as_slice(),
                    Some(app.episode_list_index),
                );
                app.episode_list_index = next;
            }
        },
        EpisodeTableKey::MoveUp => {
            if let Some(episodes) = app.library.show_episodes.get_results(None) {
                let next: usize = on_up_press_handler(
                    episodes.items.as_slice(),
                    Some(app.episode_list_index),
                );
                app.episode_list_index = next;
            }
        },
        EpisodeTableKey::JumpToTop => {
            if let Some(_episodes) = app.library.show_episodes.get_results(None) {
                app.episode_list_index = on_high_press_handler();
            }
        },
        EpisodeTableKey::JumpToMiddle => {
            if let Some(episodes) = app.library.show_episodes.get_results(None) {
                let next: usize = on_middle_press_handler(episodes.items.as_slice());
                app.episode_list_index = next;
            }
        },
        EpisodeTableKey::JumpToBottom => {
            if let Some(episodes) = app.library.show_episodes.get_results(None) {
                let next: usize = on_low_press_handler(episodes.items.as_slice());
                app.episode_list_index = next;
            }
        },
        EpisodeTableKey::Play => on_enter(app),
        EpisodeTableKey::NextPage => handle_next_event(app),
        EpisodeTableKey::PreviousPage => app.request(AppRequest::EpisodeTablePrevious),
        EpisodeTableKey::ReverseOrder => toggle_sort_by_date(app),
        EpisodeTableKey::FollowShow => app.request(AppRequest::FollowShow(ActiveBlock::EpisodeTable)),
        EpisodeTableKey::UnfollowShow => app.request(
            AppRequest::UnfollowShow(ActiveBlock::EpisodeTable),
        ),
        EpisodeTableKey::JumpToEnd => jump_to_end(app),
        EpisodeTableKey::JumpToStart => app.episode_list_index = 0,
        EpisodeTableKey::Ignored => {},
    }
}

fn jump_to_end(app: &mut App)
    requires
        match current_episodes(*old(app)) {
            Some(p) => p.items@.len() > 0,
            None => true,
        },
    ensures
        match current_episodes(*old(app)) {
            Some(p) => row_selected(*old(app), *final(app), p.items@.len() - 1),
            None => *final(app) == *old(app),
        },
{
    if let Some(episodes) = app.library.show_episodes.get_results(None) {
        let last: usize = episodes.items.len() - 1;
        app.episode_list_index = last;
    }
}

/// Start playing the listed episodes that have a uri, from the selected one.
fn on_enter(app: &mut App)
    ensures
        match current_episodes(*old(app)) {
            Some(p) => {
                &&& *final(app) == (App { dispatched: final(app).dispatched, ..*old(app) })
                &&& final(app).dispatched@.len() == old(app).dispatched@.len() + 1
                &&& final(app).dispatched@.drop_last() == old(app).dispatched@
                &&& final(app).dispatched@.last() matches IoEvent::StartPlayback(ctx, Some(uris), offset)
                    && ctx is None && uris@ == kept_uris(p.items@)
                    && offset == play_offset(p.items@, old(app).episode_list_index)
            },
            None => *final(app) == *old(app),
        },
{
    let (ids, offset) = match app.library.show_episodes.get_results(None) {
        Some(episodes) => {
            let pair: (Vec<String>, Option<usize>) = kept_episode_uris(
                &episodes.items,
                app.episode_list_index,
            );
            pair
        },
        None => {
            return ;
        },
    };
    app.dispatch(IoEvent::StartPlayback(None, Some(ids), offset));
    assert(app.dispatched@.drop_last() =~= old(app).dispatched@);
}

/// The uris of the episodes that have one, and the selected row's position
/// among them.
fn kept_episode_uris(items: &Vec<EpisodeInfo>, selected: usize) -> (r: (Vec<String>, Option<usize>))
    ensures
        r.0@ == kept_uris(items@),
        r.1 == play_offset(items@, selected),
{
    let mut ids: Vec<String> = Vec::new();
    let mut offset: Option<usize> = None;
    let mut row: usize = 0;
    while row < items.len()
        invariant
            row <= items@.len(),
            ids@ == kept_uris(items@.subrange(0, row as int)),
            offset == (if selected < row && items@[selected as int].uri is Some {
                Some(kept_uris(items@.subrange(0, selected as int)).len() as usize)
            } else {
                None
            }),
        decreases items@.len() - row,
    {
        proof {
            assert(items@.subrange(0, row + 1).drop_last() =~= items@.subrange(0, row as int));
        }
        match &items[row].uri {
            Some(uri) => {
                if row == selected {
                    offset = Some(ids.len());
                }
                ids.push(uri.clone());
            },
            None => {},
        }
        row = row + 1;
    }
    proof {
        assert(items@.subrange(0, items@.len() as int) =~= items@);
    }
    (ids, offset)
}

fn handle_next_event(app: &mut App)
    ensures
        match listed_show_id(*old(app)) {
            Some(id) => requested(*old(app), *final(app), AppRequest::EpisodeTableNext(id)),
            None => *final(app) == *old(app),
        },
{
    let show: &Option<SelectedShow> = match app.episode_table_context {
        EpisodeTableContext::Full => &app.selected_show_full,
        EpisodeTableContext::Simplified => &app.selected_show_simplified,
    };
    let show_id: Option<String> = match show {
        Some(s) => s.show.id.clone(),
        None => None,
    };
    if let Some(id) = show_id {
        app.request(AppRequest::EpisodeTableNext(id));
    }
}

/// `v` in reverse order.
fn reverse_in_place<T>(v: &mut Vec<T>)
    ensures
        final(v)@ == old(v)@.reverse(),
{
    let mut rest: Vec<T> = Vec::new();
    core::mem::swap(v, &mut rest);
    let ghost all = rest@;
    while rest.len() > 0
        invariant
            rest@.len() + v@.len() == all.len(),
            rest@ == all.subrange(0, rest@.len() as int),
            forall|i: int| 0 <= i < v@.len() ==> v@[i] == all[all.len() - 1 - i],
        decreases rest@.len(),
    {
        let x: T = rest.pop().unwrap();
        v.push(x);
    }
    assert(v@ =~= all.reverse());
}

/// Position of the first row whose id is `id`, or 0 when none has it.
fn position_of_id(items: &Vec<EpisodeInfo>, id: &Option<String>) -> (j: usize)
    ensures
        (exists|k: int| 0 <= k < items@.len() && id_view(#[trigger] items@[k].id) == id_view(*id))
            ==> first_with_id(items@, id_view(*id), j as int),
{
    let mut j: usize = 0;
    while j < items.len()
        invariant
            j <= items@.len(),
            forall|k: int| 0 <= k < j ==> id_view(#[trigger] items@[k].id) != id_view(*id),
        decreases items@.len() - j,
    {
        if same_id(&items[j].id, id) {
            return j;
        }
        j = j + 1;
    }
    0
}

fn same_id(a: &Option<String>, b: &Option<String>) -> (r: bool)
    ensures
        r == (id_view(*a) == id_view(*b)),
{
    match (a, b) {
        (Some(x), Some(y)) => crate::text::str_eq(x.as_str(), y.as_str()),
        (None, None) => true,
        _ => false,
    }
}

/// Reverse the page on screen and keep the selected episode selected.
fn toggle_sort_by_date(app: &mut App)
    ensures
        order_reversed(*old(app), *final(app)),
{
    let k: usize = app.library.show_episodes.index;
    if k >= app.library.show_episodes.pages.len() {
        app.episode_list_index = 0;
        return ;
    }
    let sel: usize = app.episode_list_index;
    let selected_id: Option<Option<String>> = {
        let items: &Vec<EpisodeInfo> = &app.library.show_episodes.pages[k].items;
        if sel < items.len() {
            Some(items[sel].id.clone())
        } else {
            None
        }
    };
    let ghost p = app.library.show_episodes.pages@[k as int];
    let mut pages: Vec<Paged<EpisodeInfo>> = Vec::new();
    core::mem::swap(&mut pages, &mut app.library.show_episodes.pages);
    let mut page: Paged<EpisodeInfo> = pages.remove(k);
    reverse_in_place(&mut page.items);
    pages.insert(k, page);
    core::mem::swap(&mut pages, &mut app.library.show_episodes.pages);
    let ghost new_pages = app.library.show_episodes.pages@;
    assert forall|j: int|
        0 <= j < new_pages.len() && j != k implies new_pages[j]
        == old(app).library.show_episodes.pages@[j] by {
        if j < k {
        } else {
        }
    }
    match selected_id {
        Some(id) => {
            let pos: usize = position_of_id(&app.library.show_episodes.pages[k].items, &id);
            proof {
                let rev = p.items@.reverse();
                let w = (p.items@.len() - 1 - sel) as int;
                assert(rev[w] == p.items@[sel as int]);
                assert(id_view(rev[w].id) == id_view(id));
            }
            app.episode_list_index = pos;
        },
        None => {
            app.episode_list_index = 0;
        },
    }
}

} // verus!
