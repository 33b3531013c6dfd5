//! Keys on the listening-stats screen.

use vstd::prelude::*;

use crate::domain::app::{notified, App, IoEvent};
use crate::infra::history::{period_after, RankedEntry, RecapPeriod};
use crate::text::{owned, starts_with};
use crate::tui::event::Key;
use crate::tui::handlers::common_key_events::{
    down_event, handle_left_event, index_after_down, index_after_up, is_down_key, is_left_key,
    is_up_key, left_event, left_handled, on_down_press_handler, on_up_press_handler, up_event,
};

verus! {

/// The uri prefix of a playable track.
pub open spec fn track_uri_prefix() -> Seq<char> {
    "spotify:track:"@
}

/// The status text for a top-track row that cannot be played.
pub open spec fn unplayable_text() -> Seq<char> {
    "This entry can't be played directly"@
}

/// The uri of the selected top-track row, if the row exists and has one.
pub open spec fn selected_track_uri(a: App) -> Option<String> {
    match a.stats_data {
        Some(s) => if a.stats_selected_track < s.top_tracks@.len() {
            s.top_tracks@[a.stats_selected_track as int].uri
        } else {
            None
        },
        None => None,
    }
}

/// `b` shows period `p`: the old stats dropped, the selection reset, and
/// the stats for `p` loading.
pub open spec fn period_switched(a: App, b: App, p: RecapPeriod) -> bool {
    &&& b == App {
        stats_period: p,
        stats_data: None,
        stats_selected_track: 0,
        stats_loading: true,
        dispatched: b.dispatched,
        ..a
    }
    &&& b.dispatched@ == a.dispatched@.push(IoEvent::LoadListeningStats(p))
}

/// The period before `p`.
pub open spec fn period_before(p: RecapPeriod) -> RecapPeriod {
    match p {
        RecapPeriod::Week => RecapPeriod::AllTime,
        RecapPeriod::Month => RecapPeriod::Week,
        RecapPeriod::Year => RecapPeriod::Month,
        RecapPeriod::AllTime => RecapPeriod::Year,
    }
}

/// What a key press on the stats screen does to the app.
pub open spec fn stats_handled(a: App, key: Key, b: App) -> bool {
    let keys = a.user_config.keys;
    let len = match a.stats_data {
        Some(s) => s.top_tracks@.len(),
        None => 0,
    };
    if is_left_key(key, keys) {
        left_handled(a, b)
    } else if is_down_key(key, keys) {
        if a.stats_data is Some {
            b == App {
                stats_selected_track: index_after_down(len, Some(a.stats_selected_track)) as usize,
                ..a
            }
        } else {
            b == a
        }
    } else if is_up_key(key, keys) {
        if a.stats_data is Some {
            b == App {
                stats_selected_track: index_after_up(len, Some(a.stats_selected_track)) as usize,
                ..a
            }
        } else {
            b == a
        }
    } else if key == Key::Char('[') {
        period_switched(a, b, period_before(a.stats_period))
    } else if key == Key::Char(']') {
        period_switched(a, b, period_after(a.stats_period))
    } else if key == Key::Enter {
        match selected_track_uri(a) {
            Some(uri) if track_uri_prefix().is_prefix_of(uri@) => {
                &&& b == App { dispatched: b.dispatched, ..a }
                &&& b.dispatched@.len() == a.dispatched@.len() + 1
                &&& b.dispatched@.drop_last() == a.dispatched@
                &&& b.dispatched@.last() matches IoEvent::StartPlayback(ctx, Some(uris), offset)
                    && ctx is None && uris@ == seq![uri] && offset == Some(0usize)
            },
            _ => if len > 0 {
                &&& b == App { status_message: b.status_message, ..a }
                &&& notified(a, b, unplayable_text(), 4)
            } else {
                b == a
            },
        }
    } else {
        b == a
    }
}

pub fn handler(key: Key, app: &mut App)
    ensures
        stats_handled(*old(app), key, *final(app)),
{
    if left_event(key, &app.user_config.keys) {
        handle_left_event(app);
    } else if down_event(key, &app.user_config.keys) {
        if let Some(stats) = &app.stats_data {
            let next: usize = on_down_press_handler(
                stats.top_tracks.as_slice(),
                Some(app.stats_selected_track),
            );
            app.stats_selected_track = next;
        }
    } else if up_event(key, &app.user_config.keys) {
        if let Some(stats) = &app.stats_data {
            let next: usize = on_up_press_handler(
                stats.top_tracks.as_slice(),
                Some(app.stats_selected_track),
            );
            app.stats_selected_track = next;
        }
    } else if key == Key::Char('[') {
        let p: RecapPeriod = app.stats_period.prev();
        cycle_period(app, p);
    } else if key == Key::Char(']') {
        let p: RecapPeriod = app.stats_period.next();
        cycle_period(app, p);
    } else if key == Key::Enter {
        play_selected(app);
    }
}

fn cycle_period(app: &mut App, period: RecapPeriod)
    ensures
        period_switched(*old(app), *final(app), period),
{
    app.stats_period = period;
    app.stats_data = None;
    app.stats_selected_track = 0;
    app.stats_loading = true;
    app.dispatch(IoEvent::LoadListeningStats(period));
}

/// Play the selected top track when it is a Spotify track; otherwise say
/// that it cannot be played (when there is a row at all).
fn play_selected(app: &mut App)
    ensures
        ({
            let a = *old(app);
            let b = *final(app);
            let len = match a.stats_data {
                Some(s) => s.top_tracks@.len(),
                None => 0,
            };
            match selected_track_uri(a) {
                Some(uri) if track_uri_prefix().is_prefix_of(uri@) => {
                    &&& b == App { dispatched: b.dispatched, ..a }
                    &&& b.dispatched@.len() == a.dispatched@.len() + 1
                    &&& b.dispatched@.drop_last() == a.dispatched@
                    &&& b.dispatched@.last() matches IoEvent::StartPlayback(ctx, Some(uris), offset)
                        && ctx is None && uris@ == seq![uri] && offset == Some(0usize)
                },
                _ => if len > 0 {
                    &&& b == App { status_message: b.status_message, ..a }
                    &&& notified(a, b, unplayable_text(), 4)
                } else {
                    b == a
                },
            }
        }),
{
    let uri: Option<String> = match &app.stats_data {
        Some(stats) => if app.stats_selected_track < stats.top_tracks.len() {
            let entry: &RankedEntry = &stats.top_tracks[app.stats_selected_track];
            entry.uri.clone()
        } else {
            None
        },
        None => None,
    };
    let playable: bool = match &uri {
        Some(u) => starts_with(u.as_str(), "spotify:track:"),
        None => false,
    };
    if playable {
        let u: String = uri.unwrap();
        let mut uris: Vec<String> = Vec::new();
        uris.push(u);
        app.dispatch(IoEvent::StartPlayback(None, Some(uris), Some(0)));
        assert(app.dispatched@.drop_last() =~= old(app).dispatched@);
    } else {
        let has_tracks: bool = match &app.stats_data {
            Some(stats) => stats.top_tracks.len() > 0,
            None => false,
        };
        if has_tracks {
            app.set_status_message(owned("This entry can't be played directly"), 4);
        }
    }
}

/// Stepping to the next period and back, or back and then on, returns to
/// the period shown.
pub proof fn lemma_period_steps_undo_each_other(p: RecapPeriod)
    ensures
        period_before(period_after(p)) == p,
        period_after(period_before(p)) == p,
{
}

} // verus!
