//! Discrete events delivered to plugins, and the pure differs that decide
//! which events a change of state produces.

use vstd::prelude::*;

use crate::domain::app::App;
use crate::domain::plugin_api::{DeviceInfo, PlayableInfo, PlaybackState};
use crate::domain::dup::Duplicate;
use crate::text::owned;

verus! {

/// Events delivered to plugins (never per-tick polling).
#[derive(Debug, Clone, PartialEq, Eq)]
pub enum ScriptEvent {
    Start,
    Quit,
    TrackChange,
    PlaybackStateChange,
    Seek,
    VolumeChange,
    QueueChange,
    ShuffleChange,
    RepeatChange,
    DeviceChange,
    SearchResults,
    /// Carries the new route name.
    RouteChange(String),
}

/// The Lua-facing name of an event.
pub open spec fn event_name_text(e: ScriptEvent) -> Seq<char> {
    match e {
        ScriptEvent::Start => "start"@,
        ScriptEvent::Quit => "quit"@,
        ScriptEvent::TrackChange => "track_change"@,
        ScriptEvent::PlaybackStateChange => "playback_state_change"@,
        ScriptEvent::Seek => "seek"@,
        ScriptEvent::VolumeChange => "volume_change"@,
        ScriptEvent::QueueChange => "queue_change"@,
        ScriptEvent::ShuffleChange => "shuffle_change"@,
        ScriptEvent::RepeatChange => "repeat_change"@,
        ScriptEvent::DeviceChange => "device_change"@,
        ScriptEvent::SearchResults => "search_results"@,
        ScriptEvent::RouteChange(_) => "route_change"@,
    }
}

/// The event names `spotatui.on` accepts, in documentation order.
pub open spec fn valid_event_names() -> Seq<Seq<char>> {
    seq![
        "start"@,
        "quit"@,
        "track_change"@,
        "playback_state_change"@,
        "seek"@,
        "volume_change"@,
        "queue_change"@,
        "shuffle_change"@,
        "repeat_change"@,
        "device_change"@,
        "search_results"@,
        "route_change"@,
    ]
}

impl ScriptEvent {
    /// Lua-facing event name accepted by `spotatui.on`.
    pub fn lua_name(&self) -> (s: &'static str)
        ensures
            s@ == event_name_text(*self),
    {
        match self {
            ScriptEvent::Start => "start",
            ScriptEvent::Quit => "quit",
            ScriptEvent::TrackChange => "track_change",
            ScriptEvent::PlaybackStateChange => "playback_state_change",
            ScriptEvent::Seek => "seek",
            ScriptEvent::VolumeChange => "volume_change",
            ScriptEvent::QueueChange => "queue_change",
            ScriptEvent::ShuffleChange => "shuffle_change",
            ScriptEvent::RepeatChange => "repeat_change",
            ScriptEvent::DeviceChange => "device_change",
            ScriptEvent::SearchResults => "search_results",
            ScriptEvent::RouteChange(_) => "route_change",
        }
    }

    /// Events whose handlers receive the current playback table (or nil).
    pub fn passes_playback_arg(&self) -> (b: bool)
        ensures
            b == (*self is TrackChange || *self is PlaybackStateChange || *self is Seek
                || *self is VolumeChange || *self is ShuffleChange || *self is RepeatChange),
    {
        match self {
            ScriptEvent::TrackChange | ScriptEvent::PlaybackStateChange | ScriptEvent::Seek
            | ScriptEvent::VolumeChange | ScriptEvent::ShuffleChange
            | ScriptEvent::RepeatChange => true,
            _ => false,
        }
    }
}

/// The valid event names, as owned strings.
pub fn valid_event_name_list() -> (v: Vec<String>)
    ensures
        v@.map_values(|s: String| s@) == valid_event_names(),
{
    let mut v: Vec<String> = Vec::new();
    v.push(owned("start"));
    v.push(owned("quit"));
    v.push(owned("track_change"));
    v.push(owned("playback_state_change"));
    v.push(owned("seek"));
    v.push(owned("volume_change"));
    v.push(owned("queue_change"));
    v.push(owned("shuffle_change"));
    v.push(owned("repeat_change"));
    v.push(owned("device_change"));
    v.push(owned("search_results"));
    v.push(owned("route_change"));
    assert(v@.map_values(|s: String| s@) =~= valid_event_names());
    v
}

/// Whether `name` is an event plugins can subscribe to.
pub fn is_valid_event_name(name: &str) -> (b: bool)
    ensures
        b == valid_event_names().contains(name@),
{
    let names: Vec<String> = valid_event_name_list();
    let mut i: usize = 0;
    while i < names.len()
        invariant
            names@.map_values(|s: String| s@) == valid_event_names(),
            i <= names@.len(),
            forall|j: int| 0 <= j < i ==> valid_event_names()[j] != name@,
        decreases names@.len() - i,
    {
        if crate::text::str_eq(names[i].as_str(), name) {
            assert(valid_event_names()[i as int] == name@);
            return true;
        }
        i = i + 1;
    }
    false
}

/// Seek heuristic: a backward jump of more than this many ms is a seek.
pub const SEEK_BACKWARD_MS: i64 = 1500;

/// Seek heuristic: a forward jump of more than this many ms is a seek.
pub const SEEK_FORWARD_MS: i64 = 6500;

/// The uri of a queue item, when it has one.
pub open spec fn playable_uri(p: PlayableInfo) -> Option<String> {
    match p {
        PlayableInfo::Track(t) => t.uri,
        PlayableInfo::Episode(e) => e.uri,
    }
}

/// The uris of the items that have one, in order.
pub open spec fn uris_of(items: Seq<PlayableInfo>) -> Seq<Seq<char>>
    decreases items.len(),
{
    if items.len() == 0 {
        Seq::empty()
    } else {
        uris_of(items.drop_last()) + match playable_uri(items.last()) {
            Some(u) => seq![u@],
            None => Seq::empty(),
        }
    }
}

/// The queue's uris: the currently playing item first, then the upcoming ones.
pub open spec fn queue_uri_seq(app: App) -> Seq<Seq<char>> {
    match app.queue {
        None => Seq::empty(),
        Some(q) => {
            let head = match q.currently_playing {
                Some(c) => match playable_uri(c) {
                    Some(u) => seq![u@],
                    None => Seq::empty(),
                },
                None => Seq::empty(),
            };
            head + uris_of(q.queue@)
        },
    }
}

fn item_uri(item: &PlayableInfo) -> (u: Option<String>)
    ensures
        match playable_uri(*item) {
            Some(x) => u matches Some(y) && y@ == x@,
            None => u is None,
        },
{
    match item {
        PlayableInfo::Track(t) => match &t.uri {
            Some(x) => Some(x.clone()),
            None => None,
        },
        PlayableInfo::Episode(e) => match &e.uri {
            Some(x) => Some(x.clone()),
            None => None,
        },
    }
}

/// The queue item uris (currently playing first, then upcoming).
pub fn queue_uris(app: &App) -> (r: Vec<String>)
    ensures
        r@.map_values(|s: String| s@) == queue_uri_seq(*app),
{
    let mut uris: Vec<String> = Vec::new();
    match &app.queue {
        None => {
            assert(uris@.map_values(|s: String| s@) =~= queue_uri_seq(*app));
            uris
        },
        Some(q) => {
            if let Some(current) = &q.currently_playing {
                if let Some(u) = item_uri(current) {
                    uris.push(u);
                }
            }
            let ghost head = uris@.map_values(|s: String| s@);
            let mut i: usize = 0;
            assert(q.queue@.subrange(0, 0) =~= Seq::<PlayableInfo>::empty());
            assert(uris@.map_values(|s: String| s@) =~= head + uris_of(q.queue@.subrange(0, 0)));
            while i < q.queue.len()
                invariant
                    i <= q.queue@.len(),
                    uris@.map_values(|s: String| s@) == head + uris_of(q.queue@.subrange(0, i as int)),
                decreases q.queue@.len() - i,
            {
                let ghost prev = uris@.map_values(|s: String| s@);
                let ghost next_items = q.queue@.subrange(0, i + 1);
                assert(next_items.drop_last() =~= q.queue@.subrange(0, i as int));
                assert(next_items.last() == q.queue@[i as int]);
                if let Some(u) = item_uri(&q.queue[i]) {
                    uris.push(u);
                    assert(uris@.map_values(|s: String| s@) =~= prev.push(u@));
                    assert(uris@.map_values(|s: String| s@) =~= head + uris_of(next_items));
                } else {
                    assert(uris@.map_values(|s: String| s@) =~= head + uris_of(next_items));
                }
                i = i + 1;
            }
            assert(q.queue@.subrange(0, q.queue@.len() as int) =~= q.queue@);
            uris
        },
    }
}

/// Track identity for diffing: the uri, falling back to the name.
pub open spec fn identity_of(state: PlaybackState) -> Option<Seq<char>> {
    match state.track {
        None => None,
        Some(t) => match t.uri {
            Some(u) => Some(u@),
            None => Some(t.name@),
        },
    }
}

/// Identity of an optional state.
pub open spec fn opt_identity(state: Option<PlaybackState>) -> Option<Seq<char>> {
    match state {
        Some(s) => identity_of(s),
        None => None,
    }
}

/// Track identity for diffing: the uri, falling back to the name.
pub fn track_identity(state: &PlaybackState) -> (r: Option<String>)
    ensures
        match identity_of(*state) {
            Some(i) => r matches Some(s) && s@ == i,
            None => r is None,
        },
{
    match &state.track {
        None => None,
        Some(t) => match &t.uri {
            Some(u) => Some(u.clone()),
            None => Some(t.name.clone()),
        },
    }
}

/// `i64` reinterpretation of a `u64` (two's complement).
pub open spec fn as_signed(x: u64) -> int {
    if x > i64::MAX {
        x - 0x1_0000_0000_0000_0000
    } else {
        x as int
    }
}

/// The progress jump `new - old` as the differ computes it.
pub open spec fn progress_delta(o: PlaybackState, n: PlaybackState) -> int {
    as_signed(n.progress_ms) - as_signed(o.progress_ms)
}

/// The progress jump fits in an `i64` (always true for realistic progress
/// values below `i64::MAX` milliseconds).
pub open spec fn delta_fits(old: Option<PlaybackState>, new: Option<PlaybackState>) -> bool {
    match (old, new) {
        (Some(o), Some(n)) => i64::MIN <= progress_delta(o, n) <= i64::MAX,
        _ => true,
    }
}

/// Whether playback is on in an optional state.
pub open spec fn playing(s: Option<PlaybackState>) -> bool {
    match s {
        Some(p) => p.is_playing,
        None => false,
    }
}

/// Volume in an optional state.
pub open spec fn volume(s: Option<PlaybackState>) -> Option<u8> {
    match s {
        Some(p) => p.volume_percent,
        None => None,
    }
}

/// An optional uri list by content.
pub open spec fn queue_view(q: Option<Vec<String>>) -> Option<Seq<Seq<char>>> {
    match q {
        Some(v) => Some(v@.map_values(|s: String| s@)),
        None => None,
    }
}

/// The track changed: the new identity is present and differs from the old.
pub open spec fn track_changed(old: Option<PlaybackState>, new: Option<PlaybackState>) -> bool {
    opt_identity(new) is Some && opt_identity(old) != opt_identity(new)
}

/// A seek: same track, same play state, and a progress jump outside the
/// tolerance window `[-SEEK_BACKWARD_MS, SEEK_FORWARD_MS]`.
pub open spec fn seeked(old: Option<PlaybackState>, new: Option<PlaybackState>) -> bool {
    match (old, new) {
        (Some(o), Some(n)) => {
            &&& opt_identity(old) is Some
            &&& opt_identity(old) == opt_identity(new)
            &&& o.is_playing == n.is_playing
            &&& !(-1500 <= progress_delta(o, n) <= 6500)
        },
        _ => false,
    }
}

/// Append `e` when `cond` holds.
pub open spec fn push_if(s: Seq<ScriptEvent>, cond: bool, e: ScriptEvent) -> Seq<ScriptEvent> {
    if cond {
        s.push(e)
    } else {
        s
    }
}

/// The events a change of playback snapshot and queue produces, in the
/// fixed order: track, play/pause, shuffle, repeat, seek, volume, queue.
pub open spec fn playback_events(
    old: Option<PlaybackState>,
    last_queue: Option<Seq<Seq<char>>>,
    new: Option<PlaybackState>,
    new_queue: Option<Seq<Seq<char>>>,
) -> Seq<ScriptEvent> {
    let both = old is Some && new is Some;
    let e1 = push_if(Seq::empty(), track_changed(old, new), ScriptEvent::TrackChange);
    let e2 = push_if(e1, playing(old) != playing(new), ScriptEvent::PlaybackStateChange);
    let e3 = push_if(
        e2,
        both && old.unwrap().shuffle != new.unwrap().shuffle,
        ScriptEvent::ShuffleChange,
    );
    let e4 = push_if(
        e3,
        both && old.unwrap().repeat@ != new.unwrap().repeat@,
        ScriptEvent::RepeatChange,
    );
    let e5 = push_if(e4, seeked(old, new), ScriptEvent::Seek);
    let e6 = push_if(
        e5,
        volume(old) != volume(new) && (volume(old) is Some || volume(new) is Some),
        ScriptEvent::VolumeChange,
    );
    push_if(e6, last_queue != new_queue, ScriptEvent::QueueChange)
}

fn same_opt_string(a: &Option<String>, b: &Option<String>) -> (r: bool)
    ensures
        r == (match a {
            Some(x) => Some(x@),
            None => None,
        } == match b {
            Some(y) => Some(y@),
            None => None,
        }),
{
    match (a, b) {
        (Some(x), Some(y)) => crate::text::str_eq(x.as_str(), y.as_str()),
        (None, None) => true,
        _ => false,
    }
}

fn same_uri_lists(a: &Option<Vec<String>>, b: &Option<Vec<String>>) -> (r: bool)
    ensures
        r == (queue_view(*a) == queue_view(*b)),
{
    match (a, b) {
        (Some(x), Some(y)) => {
            if x.len() != y.len() {
                assert(x@.map_values(|s: String| s@).len() != y@.map_values(|s: String| s@).len());
                return false;
            }
            let mut i: usize = 0;
            while i < x.len()
                invariant
                    x@.len() == y@.len(),
                    i <= x@.len(),
                    queue_view(*a) == Some(x@.map_values(|s: String| s@)),
                    queue_view(*b) == Some(y@.map_values(|s: String| s@)),
                    forall|j: int| 0 <= j < i ==> x@[j]@ == y@[j]@,
                decreases x@.len() - i,
            {
                if !crate::text::str_eq(x[i].as_str(), y[i].as_str()) {
                    let ghost xv = x@.map_values(|s: String| s@);
                    let ghost yv = y@.map_values(|s: String| s@);
                    assert(xv[i as int] == x@[i as int]@);
                    assert(yv[i as int] == y@[i as int]@);
                    assert(xv[i as int] != yv[i as int]);
                    assert(xv != yv);
                    assert(queue_view(*a) == Some(xv));
                    assert(queue_view(*b) == Some(yv));
                    return false;
                }
                i = i + 1;
            }
            assert(x@.map_values(|s: String| s@) =~= y@.map_values(|s: String| s@));
            true
        },
        (None, None) => true,
        _ => false,
    }
}

fn opt_volume(s: &Option<PlaybackState>) -> (v: Option<u8>)
    ensures
        v == volume(*s),
{
    match s {
        Some(p) => p.volume_percent,
        None => None,
    }
}

fn opt_playing(s: &Option<PlaybackState>) -> (b: bool)
    ensures
        b == playing(*s),
{
    match s {
        Some(p) => p.is_playing,
        None => false,
    }
}

fn opt_track_identity(s: &Option<PlaybackState>) -> (r: Option<String>)
    ensures
        match opt_identity(*s) {
            Some(i) => r matches Some(x) && x@ == i,
            None => r is None,
        },
{
    match s {
        Some(p) => track_identity(p),
        None => None,
    }
}

fn signed(x: u64) -> (r: i128)
    ensures
        r as int == as_signed(x),
{
    if x > 9223372036854775807u64 {
        (x as i128) - 18446744073709551616i128
    } else {
        x as i128
    }
}

/// Diff two playback snapshots (and queue uri lists) into the events to
/// emit, in a fixed order.
pub fn diff_events(
    old: &Option<PlaybackState>,
    last_queue: &Option<Vec<String>>,
    new: &Option<PlaybackState>,
    new_queue: &Option<Vec<String>>,
) -> (r: Vec<ScriptEvent>)
    requires
        delta_fits(*old, *new),
    ensures
        r@ == playback_events(*old, queue_view(*last_queue), *new, queue_view(*new_queue)),
{
    let mut events: Vec<ScriptEvent> = Vec::new();
    let old_identity: Option<String> = opt_track_identity(old);
    let new_identity: Option<String> = opt_track_identity(new);
    let same_identity: bool = same_opt_string(&old_identity, &new_identity);
    if new_identity.is_some() && !same_identity {
        events.push(ScriptEvent::TrackChange);
    }
    if opt_playing(old) != opt_playing(new) {
        events.push(ScriptEvent::PlaybackStateChange);
    }
    if let (Some(o), Some(n)) = (old, new) {
        if o.shuffle != n.shuffle {
            events.push(ScriptEvent::ShuffleChange);
        }
        if o.repeat != n.repeat {
            events.push(ScriptEvent::RepeatChange);
        }
    }
    if let (Some(o), Some(n)) = (old, new) {
        let same_track: bool = old_identity.is_some() && same_identity;
        if same_track && o.is_playing == n.is_playing {
            let delta: i128 = signed(n.progress_ms) - signed(o.progress_ms);
            if !(-1500 <= delta && delta <= 6500) {
                events.push(ScriptEvent::Seek);
            }
        }
    }
    let old_vol: Option<u8> = opt_volume(old);
    let new_vol: Option<u8> = opt_volume(new);
    if old_vol != new_vol && (old_vol.is_some() || new_vol.is_some()) {
        events.push(ScriptEvent::VolumeChange);
    }
    if !same_uri_lists(last_queue, new_queue) {
        events.push(ScriptEvent::QueueChange);
    }
    events
}

/// An event is in `push_if(s, c, e)` exactly when it is in `s` or it is
/// `e` pushed because `c` holds.
proof fn lemma_push_if_contains(s: Seq<ScriptEvent>, c: bool, e: ScriptEvent, x: ScriptEvent)
    ensures
        push_if(s, c, e).contains(x) <==> (s.contains(x) || (c && x == e)),
{
    if c {
        if s.push(e).contains(x) && !s.contains(x) {
            let i = choose|i: int| 0 <= i < s.push(e).len() && s.push(e)[i] == x;
            if i < s.len() {
                assert(s[i] == x);
            }
        }
        if s.contains(x) {
            let i = choose|i: int| 0 <= i < s.len() && s[i] == x;
            assert(s.push(e)[i] == x);
        }
        if x == e {
            assert(s.push(e)[s.len() as int] == x);
        }
    }
}

/// A seek is reported only within one track: both snapshots are present,
/// both name a track and it is the same track (same uri, or same name when
/// there is no uri), the play state did not change and the progress jumped
/// outside the tolerance window. So a change of track never also reports a
/// seek, however far the progress moved.
pub proof fn lemma_seek_only_within_a_track(
    old: Option<PlaybackState>,
    last_queue: Option<Seq<Seq<char>>>,
    new: Option<PlaybackState>,
    new_queue: Option<Seq<Seq<char>>>,
)
    requires
        playback_events(old, last_queue, new, new_queue).contains(ScriptEvent::Seek),
    ensures
        old is Some && new is Some,
        old.unwrap().track is Some && new.unwrap().track is Some,
        identity_of(old.unwrap()) == identity_of(new.unwrap()),
        old.unwrap().is_playing == new.unwrap().is_playing,
        progress_delta(old.unwrap(), new.unwrap()) < -1500 || progress_delta(old.unwrap(), new.unwrap()) > 6500,
        !playback_events(old, last_queue, new, new_queue).contains(ScriptEvent::TrackChange),
{
    let both = old is Some && new is Some;
    let e1 = push_if(Seq::empty(), track_changed(old, new), ScriptEvent::TrackChange);
    let e2 = push_if(e1, playing(old) != playing(new), ScriptEvent::PlaybackStateChange);
    let e3 = push_if(e2, both && old.unwrap().shuffle != new.unwrap().shuffle, ScriptEvent::ShuffleChange);
    let e4 = push_if(e3, both && old.unwrap().repeat@ != new.unwrap().repeat@, ScriptEvent::RepeatChange);
    let e5 = push_if(e4, seeked(old, new), ScriptEvent::Seek);
    let e6 = push_if(
        e5,
        volume(old) != volume(new) && (volume(old) is Some || volume(new) is Some),
        ScriptEvent::VolumeChange,
    );
    let all = push_if(e6, last_queue != new_queue, ScriptEvent::QueueChange);
    assert(all == playback_events(old, last_queue, new, new_queue));
    assert(!Seq::<ScriptEvent>::empty().contains(ScriptEvent::Seek));
    assert(!Seq::<ScriptEvent>::empty().contains(ScriptEvent::TrackChange));
    lemma_push_if_contains(Seq::empty(), track_changed(old, new), ScriptEvent::TrackChange, ScriptEvent::Seek);
    lemma_push_if_contains(e1, playing(old) != playing(new), ScriptEvent::PlaybackStateChange, ScriptEvent::Seek);
    lemma_push_if_contains(e2, both && old.unwrap().shuffle != new.unwrap().shuffle, ScriptEvent::ShuffleChange, ScriptEvent::Seek);
    lemma_push_if_contains(e3, both && old.unwrap().repeat@ != new.unwrap().repeat@, ScriptEvent::RepeatChange, ScriptEvent::Seek);
    lemma_push_if_contains(e4, seeked(old, new), ScriptEvent::Seek, ScriptEvent::Seek);
    lemma_push_if_contains(e5, volume(old) != volume(new) && (volume(old) is Some || volume(new) is Some), ScriptEvent::VolumeChange, ScriptEvent::Seek);
    lemma_push_if_contains(e6, last_queue != new_queue, ScriptEvent::QueueChange, ScriptEvent::Seek);
    assert(seeked(old, new));
    lemma_push_if_contains(Seq::empty(), track_changed(old, new), ScriptEvent::TrackChange, ScriptEvent::TrackChange);
    lemma_push_if_contains(e1, playing(old) != playing(new), ScriptEvent::PlaybackStateChange, ScriptEvent::TrackChange);
    lemma_push_if_contains(e2, both && old.unwrap().shuffle != new.unwrap().shuffle, ScriptEvent::ShuffleChange, ScriptEvent::TrackChange);
    lemma_push_if_contains(e3, both && old.unwrap().repeat@ != new.unwrap().repeat@, ScriptEvent::RepeatChange, ScriptEvent::TrackChange);
    lemma_push_if_contains(e4, seeked(old, new), ScriptEvent::Seek, ScriptEvent::TrackChange);
    lemma_push_if_contains(e5, volume(old) != volume(new) && (volume(old) is Some || volume(new) is Some), ScriptEvent::VolumeChange, ScriptEvent::TrackChange);
    lemma_push_if_contains(e6, last_queue != new_queue, ScriptEvent::QueueChange, ScriptEvent::TrackChange);
}

/// A snapshot compared with itself produces no events.
pub proof fn lemma_unchanged_state_emits_nothing(
    state: Option<PlaybackState>,
    queue: Option<Seq<Seq<char>>>,
)
    ensures
        playback_events(state, queue, state, queue) == Seq::<ScriptEvent>::empty(),
{
    assert(playback_events(state, queue, state, queue) =~= Seq::<ScriptEvent>::empty());
}

/// A track change is reported exactly when a new identity appears that
/// differs from the old one, and then it is the first event.
pub proof fn lemma_track_change_first(
    old: Option<PlaybackState>,
    last_queue: Option<Seq<Seq<char>>>,
    new: Option<PlaybackState>,
    new_queue: Option<Seq<Seq<char>>>,
)
    ensures
        playback_events(old, last_queue, new, new_queue).contains(ScriptEvent::TrackChange)
            <==> track_changed(old, new),
        track_changed(old, new) ==> playback_events(old, last_queue, new, new_queue)[0]
            == ScriptEvent::TrackChange,
{
    let s = playback_events(old, last_queue, new, new_queue);
    if track_changed(old, new) {
        assert(s[0] == ScriptEvent::TrackChange);
    } else {
        if s.contains(ScriptEvent::TrackChange) {
            let i = choose|i: int| 0 <= i < s.len() && s[i] == ScriptEvent::TrackChange;
            assert(false);
        }
    }
}

/// The key by which device lists are compared.
pub open spec fn device_key_eq(a: DeviceInfo, b: DeviceInfo) -> bool {
    &&& Option::<String>::same(a.id, b.id)
    &&& a.name@ == b.name@
    &&& a.is_active == b.is_active
}

/// The device list changed: a different length, or some position whose id,
/// name or active flag differs.
pub open spec fn devices_changed(old: Seq<DeviceInfo>, new: Seq<DeviceInfo>) -> bool {
    old.len() != new.len() || exists|i: int|
        0 <= i < old.len() && !device_key_eq(#[trigger] old[i], new[i])
}

/// The events a change of route, device list and search generation produces,
/// in the fixed order: route, device, search.
pub open spec fn state_events(
    old_route: Seq<char>,
    new_route: Seq<char>,
    old_devices: Seq<DeviceInfo>,
    new_devices: Seq<DeviceInfo>,
    search_gen_advanced: bool,
) -> Seq<Seq<char>> {
    let e1: Seq<Seq<char>> = if old_route != new_route {
        seq!["route_change"@]
    } else {
        Seq::empty()
    };
    let e2 = if devices_changed(old_devices, new_devices) {
        e1.push("device_change"@)
    } else {
        e1
    };
    if search_gen_advanced {
        e2.push("search_results"@)
    } else {
        e2
    }
}

fn device_key_equal(a: &DeviceInfo, b: &DeviceInfo) -> (r: bool)
    ensures
        r == device_key_eq(*a, *b),
{
    let ids: bool = match (&a.id, &b.id) {
        (Some(x), Some(y)) => crate::text::str_eq(x.as_str(), y.as_str()),
        (None, None) => true,
        _ => false,
    };
    ids && crate::text::str_eq(a.name.as_str(), b.name.as_str()) && a.is_active == b.is_active
}

/// Diff non-playback engine state into events: route change (carrying the
/// new route name), device change, search results.
pub fn diff_state_events(
    old_route: &str,
    new_route: &str,
    old_devices: &[DeviceInfo],
    new_devices: &[DeviceInfo],
    search_gen_advanced: bool,
) -> (r: Vec<ScriptEvent>)
    ensures
        r@.map_values(|e: ScriptEvent| event_name_text(e)) == state_events(
            old_route@,
            new_route@,
            old_devices@,
            new_devices@,
            search_gen_advanced,
        ),
        forall|i: int|
            0 <= i < r@.len() ==> (#[trigger] r@[i] matches ScriptEvent::RouteChange(n) ==> n@
                == new_route@),
{
    let mut events: Vec<ScriptEvent> = Vec::new();
    if !crate::text::str_eq(old_route, new_route) {
        events.push(ScriptEvent::RouteChange(owned(new_route)));
    }
    let mut changed: bool = old_devices.len() != new_devices.len();
    if !changed {
        let mut i: usize = 0;
        while i < old_devices.len()
            invariant
                old_devices@.len() == new_devices@.len(),
                i <= old_devices@.len(),
                !changed ==> forall|j: int|
                    0 <= j < i ==> device_key_eq(#[trigger] old_devices@[j], new_devices@[j]),
                changed ==> exists|j: int|
                    0 <= j < old_devices@.len() && !device_key_eq(
                        #[trigger] old_devices@[j],
                        new_devices@[j],
                    ),
            decreases old_devices@.len() - i,
        {
            if !changed && !device_key_equal(&old_devices[i], &new_devices[i]) {
                changed = true;
            }
            i = i + 1;
        }
    }
    if changed {
        events.push(ScriptEvent::DeviceChange);
    }
    if search_gen_advanced {
        events.push(ScriptEvent::SearchResults);
    }
    proof {
        assert(events@.map_values(|e: ScriptEvent| event_name_text(e)) =~= state_events(
            old_route@,
            new_route@,
            old_devices@,
            new_devices@,
            search_gen_advanced,
        ));
    }
    events
}

/// Unchanged route and devices with no new search produce no events.
pub proof fn lemma_unchanged_engine_state_emits_nothing(route: Seq<char>, devices: Seq<DeviceInfo>)
    ensures
        state_events(route, route, devices, devices, false) == Seq::<Seq<char>>::empty(),
{
    assert forall|i: int| 0 <= i < devices.len() implies device_key_eq(
        #[trigger] devices[i],
        devices[i],
    ) by {
        Option::<String>::same_reflexive(devices[i].id);
    }
    assert(!devices_changed(devices, devices));
}

} // verus!
