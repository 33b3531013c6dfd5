//! The rules of the plugin API (`spotatui.*`): what each call accepts, the
//! error it raises otherwise, and the effect or request it queues.
//!
//! The Lua bindings convert their arguments to the plain values taken here
//! and raise the returned `ApiError` message as a Lua runtime error.

use vstd::prelude::*;

use crate::domain::app::{IoEvent, PluginDataKind, RepeatState};
use crate::domain::plugin_api::{PluginWidget, PopupLine, API_VERSION};
use crate::domain::user_config::{
    color_error_matches, color_fault_text, parse_color, parse_theme_item, theme_field_names,
    is_theme_field, ThemeColor,
};
use crate::infra::scripting::effects::{nav_target_list, nav_targets, ScriptEffect};
use crate::infra::scripting::events::{is_valid_event_name, valid_event_name_list, valid_event_names};
use crate::infra::scripting::shared::{plugin_id, plugin_id_of, DataRequest};
use crate::text::{
    all_ws, any_ws, dec, dec_int, has_whitespace, i64_to_string, is_blank, join_with, joined,
    owned, starts_with, str_eq, u64_to_string,
};

verus! {

/// An error raised to the calling plugin, with its message.
#[derive(Debug, Clone, PartialEq, Eq)]
pub struct ApiError {
    pub message: String,
}

/// `r` is an error with message `m`.
pub open spec fn fails_with<T>(r: Result<T, ApiError>, m: Seq<char>) -> bool {
    r matches Err(e) && e.message@ == m
}

fn fail<T>(message: String) -> (r: Result<T, ApiError>)
    ensures
        fails_with(r, message@),
{
    Err(ApiError { message })
}

/// `n as u32`: the low 32 bits.
pub open spec fn low32(n: i64) -> nat {
    (n as int % 0x1_0000_0000) as nat
}

/// `spotatui.require_api(n)`: the plugin needs API version `n`, which must be
/// positive and at most the version this build provides.
pub fn require_api(n: i64) -> (r: Result<(), ApiError>)
    ensures
        n < 1 ==> fails_with(
            r,
            "spotatui.require_api: version must be a positive integer, got "@ + dec_int(n as int),
        ),
        n >= 1 && low32(n) > API_VERSION ==> fails_with(
            r,
            "requires spotatui scripting API v"@ + dec(low32(n)) + " (this build provides v"@
                + dec(API_VERSION as nat) + "); update spotatui to use this plugin"@,
        ),
        n >= 1 && low32(n) <= API_VERSION ==> r is Ok,
{
    if n < 1 {
        let mut m: String = owned("spotatui.require_api: version must be a positive integer, got ");
        let ns: String = i64_to_string(n);
        m.append(ns.as_str());
        return fail(m);
    }
    let v: u64 = (n as u64) % 0x1_0000_0000;
    assert(v == low32(n));
    if v > API_VERSION as u64 {
        let mut m: String = owned("requires spotatui scripting API v");
        let vs: String = u64_to_string(v);
        m.append(vs.as_str());
        m.append(" (this build provides v");
        let cur: String = u64_to_string(API_VERSION as u64);
        m.append(cur.as_str());
        m.append("); update spotatui to use this plugin");
        return fail(m);
    }
    Ok(())
}

/// `spotatui.on(event, fn)` accepts only the documented event names.
pub fn check_event_name(event: &str) -> (r: Result<(), ApiError>)
    ensures
        valid_event_names().contains(event@) ==> r is Ok,
        !valid_event_names().contains(event@) ==> fails_with(
            r,
            "spotatui.on: unknown event '"@ + event@ + "'; valid events: "@ + joined(
                valid_event_names(),
                ", "@,
            ),
        ),
{
    if is_valid_event_name(event) {
        return Ok(());
    }
    let mut m: String = owned("spotatui.on: unknown event '");
    m.append(event);
    m.append("'; valid events: ");
    let names: Vec<String> = valid_event_name_list();
    let list: String = join_with(&names, ", ");
    m.append(list.as_str());
    fail(m)
}

/// `spotatui.set_volume(pct)`: the percentage clamped to `0..=100`.
pub fn volume_effect(pct: i64) -> (e: ScriptEffect)
    ensures
        e == ScriptEffect::SetVolume(
            (if pct < 0 {
                0
            } else if pct > 100 {
                100
            } else {
                pct
            }) as u8,
        ),
{
    let clamped: i64 = if pct < 0 {
        0
    } else if pct > 100 {
        100
    } else {
        pct
    };
    ScriptEffect::SetVolume(clamped as u8)
}

/// `spotatui.notify(msg, ttl?)`: the ttl defaults to 4 seconds.
pub fn notify_effect(msg: String, ttl: Option<u64>) -> (e: ScriptEffect)
    ensures
        e == ScriptEffect::Notify(
            msg,
            match ttl {
                Some(t) => t,
                None => 4,
            },
        ),
{
    let t: u64 = match ttl {
        Some(t) => t,
        None => 4,
    };
    ScriptEffect::Notify(msg, t)
}

/// Spotify container uris playable as a context.
pub open spec fn context_uri(uri: Seq<char>) -> bool {
    ||| "spotify:album:"@.is_prefix_of(uri)
    ||| "spotify:playlist:"@.is_prefix_of(uri)
    ||| "spotify:artist:"@.is_prefix_of(uri)
    ||| "spotify:show:"@.is_prefix_of(uri)
}

/// The uris playable as a context are exactly the Spotify album,
/// playlist, artist and show uris; no track or episode uri is one.
pub proof fn lemma_context_uris(uri: Seq<char>)
    ensures
        context_uri(uri) <==> ("spotify:album:"@.is_prefix_of(uri) || "spotify:playlist:"@.is_prefix_of(uri)
            || "spotify:artist:"@.is_prefix_of(uri) || "spotify:show:"@.is_prefix_of(uri)),
        "spotify:track:"@.is_prefix_of(uri) ==> !context_uri(uri),
        "spotify:episode:"@.is_prefix_of(uri) ==> !context_uri(uri),
{
    reveal_strlit("spotify:album:");
    reveal_strlit("spotify:playlist:");
    reveal_strlit("spotify:artist:");
    reveal_strlit("spotify:show:");
    reveal_strlit("spotify:track:");
    reveal_strlit("spotify:episode:");
    if "spotify:track:"@.is_prefix_of(uri) || "spotify:episode:"@.is_prefix_of(uri) {
        assert(uri[8] == uri.subrange(0, 14)[8]);
        assert(uri[9] == uri.subrange(0, 14)[9]);
        assert(uri[8] == 't' || uri[8] == 'e');
        if "spotify:album:"@.is_prefix_of(uri) {
            assert(uri[8] == uri.subrange(0, 14)[8]);
        }
        if "spotify:playlist:"@.is_prefix_of(uri) {
            assert(uri[8] == uri.subrange(0, 17)[8]);
        }
        if "spotify:artist:"@.is_prefix_of(uri) {
            assert(uri[8] == uri.subrange(0, 15)[8]);
            assert(uri[9] == uri.subrange(0, 15)[9]);
        }
        if "spotify:show:"@.is_prefix_of(uri) {
            assert(uri[8] == uri.subrange(0, 13)[8]);
        }
    }
}

/// True for Spotify container uris playable as a context.
pub fn is_context_uri(uri: &str) -> (b: bool)
    ensures
        b == context_uri(uri@),
{
    starts_with(uri, "spotify:album:") || starts_with(uri, "spotify:playlist:") || starts_with(
        uri,
        "spotify:artist:",
    ) || starts_with(uri, "spotify:show:")
}

/// The message raised for a blank string argument.
pub open spec fn blank_arg_message(function_name: Seq<char>, arg_name: Seq<char>) -> Seq<char> {
    function_name + ": "@ + arg_name + " must be a non-empty string"@
}

/// Reject a blank (empty or white-space only) string argument.
pub fn require_nonempty(function_name: &str, arg_name: &str, value: &str) -> (r: Result<
    (),
    ApiError,
>)
    ensures
        all_ws(value@) ==> fails_with(r, blank_arg_message(function_name@, arg_name@)),
        !all_ws(value@) ==> r is Ok,
{
    if is_blank(value) {
        let mut m: String = owned(function_name);
        m.append(": ");
        m.append(arg_name);
        m.append(" must be a non-empty string");
        return fail(m);
    }
    Ok(())
}

/// `spotatui.play_uri(uri)`: tracks and episodes play as a one-item uri list,
/// containers as a context; anything else is rejected.
pub fn play_uri_effect(uri: String) -> (r: Result<ScriptEffect, ApiError>)
    ensures
        ("spotify:track:"@.is_prefix_of(uri@) || "spotify:episode:"@.is_prefix_of(uri@)) ==> (r
            matches Ok(ScriptEffect::Dispatch(IoEvent::StartPlayback(None, Some(v), None))) && v@
            == seq![uri]),
        !("spotify:track:"@.is_prefix_of(uri@) || "spotify:episode:"@.is_prefix_of(uri@))
            && context_uri(uri@) ==> r == Ok::<ScriptEffect, ApiError>(
            ScriptEffect::Dispatch(IoEvent::StartPlayback(Some(uri), None, None)),
        ),
        !("spotify:track:"@.is_prefix_of(uri@) || "spotify:episode:"@.is_prefix_of(uri@))
            && !context_uri(uri@) ==> fails_with(
            r,
            "spotatui.play_uri: expected a spotify:track/episode/album/playlist/artist/show uri, got '"@
                + uri@ + "'"@,
        ),
{
    if starts_with(uri.as_str(), "spotify:track:") || starts_with(uri.as_str(), "spotify:episode:") {
        let mut v: Vec<String> = Vec::new();
        v.push(uri);
        proof {
            assert(v@ =~= seq![uri]);
        }
        Ok(ScriptEffect::Dispatch(IoEvent::StartPlayback(None, Some(v), None)))
    } else if is_context_uri(uri.as_str()) {
        Ok(ScriptEffect::Dispatch(IoEvent::StartPlayback(Some(uri), None, None)))
    } else {
        let mut m: String = owned(
            "spotatui.play_uri: expected a spotify:track/episode/album/playlist/artist/show uri, got '",
        );
        m.append(uri.as_str());
        m.append("'");
        fail(m)
    }
}

/// `spotatui.play_context(uri, offset?)`: play a container from an optional
/// 0-based offset.
pub fn play_context_effect(uri: String, offset: Option<usize>) -> (r: Result<
    ScriptEffect,
    ApiError,
>)
    ensures
        context_uri(uri@) ==> r == Ok::<ScriptEffect, ApiError>(
            ScriptEffect::Dispatch(IoEvent::StartPlayback(Some(uri), None, offset)),
        ),
        !context_uri(uri@) ==> fails_with(
            r,
            "spotatui.play_context: expected a spotify:album/playlist/artist/show uri, got '"@
                + uri@ + "'"@,
        ),
{
    if !is_context_uri(uri.as_str()) {
        let mut m: String = owned(
            "spotatui.play_context: expected a spotify:album/playlist/artist/show uri, got '",
        );
        m.append(uri.as_str());
        m.append("'");
        return fail(m);
    }
    Ok(ScriptEffect::Dispatch(IoEvent::StartPlayback(Some(uri), None, offset)))
}

/// `spotatui.set_repeat(mode)`: `"off"`, `"track"` or `"context"`.
pub fn set_repeat_effect(mode: &str) -> (r: Result<ScriptEffect, ApiError>)
    ensures
        mode@ == "off"@ ==> r == Ok::<ScriptEffect, ApiError>(
            ScriptEffect::Dispatch(IoEvent::Repeat(RepeatState::Off)),
        ),
        mode@ == "track"@ ==> r == Ok::<ScriptEffect, ApiError>(
            ScriptEffect::Dispatch(IoEvent::Repeat(RepeatState::Track)),
        ),
        mode@ == "context"@ ==> r == Ok::<ScriptEffect, ApiError>(
            ScriptEffect::Dispatch(IoEvent::Repeat(RepeatState::Context)),
        ),
        mode@ != "off"@ && mode@ != "track"@ && mode@ != "context"@ ==> fails_with(
            r,
            "spotatui.set_repeat: expected \"off\", \"track\" or \"context\", got '"@ + mode@
                + "'"@,
        ),
{
    proof {
        reveal_strlit("off");
        reveal_strlit("track");
        reveal_strlit("context");
        assert("off"@.len() == 3 && "track"@.len() == 5 && "context"@.len() == 7);
    }
    if str_eq(mode, "off") {
        Ok(ScriptEffect::Dispatch(IoEvent::Repeat(RepeatState::Off)))
    } else if str_eq(mode, "track") {
        Ok(ScriptEffect::Dispatch(IoEvent::Repeat(RepeatState::Track)))
    } else if str_eq(mode, "context") {
        Ok(ScriptEffect::Dispatch(IoEvent::Repeat(RepeatState::Context)))
    } else {
        let mut m: String = owned(
            "spotatui.set_repeat: expected \"off\", \"track\" or \"context\", got '",
        );
        m.append(mode);
        m.append("'");
        fail(m)
    }
}

/// `spotatui.create_playlist(name, uris?)`: the name must not be blank.
pub fn create_playlist_effect(name: String, uris: Vec<String>) -> (r: Result<
    ScriptEffect,
    ApiError,
>)
    ensures
        all_ws(name@) ==> fails_with(r, "spotatui.create_playlist: name must be a non-empty string"@),
        !all_ws(name@) ==> r == Ok::<ScriptEffect, ApiError>(
            ScriptEffect::Dispatch(IoEvent::CreateNewPlaylist(name, uris)),
        ),
{
    if is_blank(name.as_str()) {
        return fail(owned("spotatui.create_playlist: name must be a non-empty string"));
    }
    Ok(ScriptEffect::Dispatch(IoEvent::CreateNewPlaylist(name, uris)))
}

/// `spotatui.playlist_add_track(playlist, track)`: both non-blank.
pub fn playlist_add_track_effect(playlist: String, track: String) -> (r: Result<
    ScriptEffect,
    ApiError,
>)
    ensures
        all_ws(playlist@) ==> fails_with(
            r,
            blank_arg_message("spotatui.playlist_add_track"@, "playlist"@),
        ),
        !all_ws(playlist@) && all_ws(track@) ==> fails_with(
            r,
            blank_arg_message("spotatui.playlist_add_track"@, "track"@),
        ),
        !all_ws(playlist@) && !all_ws(track@) ==> r == Ok::<ScriptEffect, ApiError>(
            ScriptEffect::Dispatch(IoEvent::AddTrackToPlaylist(playlist, track)),
        ),
{
    match require_nonempty("spotatui.playlist_add_track", "playlist", playlist.as_str()) {
        Err(e) => return Err(e),
        Ok(()) => {},
    }
    match require_nonempty("spotatui.playlist_add_track", "track", track.as_str()) {
        Err(e) => return Err(e),
        Ok(()) => {},
    }
    Ok(ScriptEffect::Dispatch(IoEvent::AddTrackToPlaylist(playlist, track)))
}

/// `spotatui.playlist_remove_track(playlist, track, position)`: both names
/// non-blank, the 0-based position representable as a `usize`.
pub fn playlist_remove_track_effect(playlist: String, track: String, position: i64) -> (r: Result<
    ScriptEffect,
    ApiError,
>)
    ensures
        all_ws(playlist@) ==> fails_with(
            r,
            blank_arg_message("spotatui.playlist_remove_track"@, "playlist"@),
        ),
        !all_ws(playlist@) && all_ws(track@) ==> fails_with(
            r,
            blank_arg_message("spotatui.playlist_remove_track"@, "track"@),
        ),
        !all_ws(playlist@) && !all_ws(track@) && (position < 0 || position > usize::MAX)
            ==> fails_with(
            r,
            "spotatui.playlist_remove_track: position must be a non-negative (0-based) integer, got "@
                + dec_int(position as int),
        ),
        !all_ws(playlist@) && !all_ws(track@) && 0 <= position <= usize::MAX ==> r == Ok::<
            ScriptEffect,
            ApiError,
        >(
            ScriptEffect::Dispatch(
                IoEvent::RemoveTrackFromPlaylistAtPosition(playlist, track, position as usize),
            ),
        ),
{
    match require_nonempty("spotatui.playlist_remove_track", "playlist", playlist.as_str()) {
        Err(e) => return Err(e),
        Ok(()) => {},
    }
    match require_nonempty("spotatui.playlist_remove_track", "track", track.as_str()) {
        Err(e) => return Err(e),
        Ok(()) => {},
    }
    if position < 0 || (position as u64) > (usize::MAX as u64) {
        let mut m: String = owned(
            "spotatui.playlist_remove_track: position must be a non-negative (0-based) integer, got ",
        );
        let ps: String = i64_to_string(position);
        m.append(ps.as_str());
        return fail(m);
    }
    Ok(
        ScriptEffect::Dispatch(
            IoEvent::RemoveTrackFromPlaylistAtPosition(playlist, track, position as usize),
        ),
    )
}

/// The single-string actions of the API.
#[derive(Debug, Clone, Copy, PartialEq, Eq, Structural)]
pub enum StringAction {
    TransferPlayback,
    AddToQueue,
    FollowPlaylist,
    UnfollowPlaylist,
    ToggleSaveTrack,
    SaveAlbum,
    UnsaveAlbum,
    SaveShow,
    UnsaveShow,
    FollowArtist,
    UnfollowArtist,
}

/// The Lua name of a single-string action.
pub open spec fn string_action_name(a: StringAction) -> Seq<char> {
    match a {
        StringAction::TransferPlayback => "transfer_playback"@,
        StringAction::AddToQueue => "add_to_queue"@,
        StringAction::FollowPlaylist => "follow_playlist"@,
        StringAction::UnfollowPlaylist => "unfollow_playlist"@,
        StringAction::ToggleSaveTrack => "toggle_save_track"@,
        StringAction::SaveAlbum => "save_album"@,
        StringAction::UnsaveAlbum => "unsave_album"@,
        StringAction::SaveShow => "save_show"@,
        StringAction::UnsaveShow => "unsave_show"@,
        StringAction::FollowArtist => "follow_artist"@,
        StringAction::UnfollowArtist => "unfollow_artist"@,
    }
}

/// The effect a single-string action queues for argument `v`.
pub open spec fn string_action_result(a: StringAction, v: String, e: ScriptEffect) -> bool {
    match a {
        StringAction::TransferPlayback => e == ScriptEffect::Dispatch(
            IoEvent::TransferPlaybackToDevice(v, false),
        ),
        StringAction::AddToQueue => e == ScriptEffect::Dispatch(IoEvent::AddItemToQueue(v)),
        StringAction::FollowPlaylist => e matches ScriptEffect::Dispatch(
            IoEvent::UserFollowPlaylist(owner, p, None),
        ) && owner@ == "unknown"@ && p == v,
        StringAction::UnfollowPlaylist => e == ScriptEffect::UnfollowPlaylist(v),
        StringAction::ToggleSaveTrack => e == ScriptEffect::Dispatch(IoEvent::ToggleSaveTrack(v)),
        StringAction::SaveAlbum => e == ScriptEffect::Dispatch(IoEvent::CurrentUserSavedAlbumAdd(v)),
        StringAction::UnsaveAlbum => e == ScriptEffect::Dispatch(
            IoEvent::CurrentUserSavedAlbumDelete(v),
        ),
        StringAction::SaveShow => e == ScriptEffect::Dispatch(IoEvent::CurrentUserSavedShowAdd(v)),
        StringAction::UnsaveShow => e == ScriptEffect::Dispatch(
            IoEvent::CurrentUserSavedShowDelete(v),
        ),
        StringAction::FollowArtist => e matches ScriptEffect::Dispatch(
            IoEvent::UserFollowArtists(ids),
        ) && ids@ == seq![v],
        StringAction::UnfollowArtist => e matches ScriptEffect::Dispatch(
            IoEvent::UserUnfollowArtists(ids),
        ) && ids@ == seq![v],
    }
}

impl StringAction {
    /// The Lua name of the action (`spotatui.<name>`).
    pub fn name(&self) -> (s: &'static str)
        ensures
            s@ == string_action_name(*self),
    {
        match self {
            StringAction::TransferPlayback => "transfer_playback",
            StringAction::AddToQueue => "add_to_queue",
            StringAction::FollowPlaylist => "follow_playlist",
            StringAction::UnfollowPlaylist => "unfollow_playlist",
            StringAction::ToggleSaveTrack => "toggle_save_track",
            StringAction::SaveAlbum => "save_album",
            StringAction::UnsaveAlbum => "unsave_album",
            StringAction::SaveShow => "save_show",
            StringAction::UnsaveShow => "unsave_show",
            StringAction::FollowArtist => "follow_artist",
            StringAction::UnfollowArtist => "unfollow_artist",
        }
    }
}

/// A single-string action: the argument must not be blank.
pub fn string_action_effect(action: StringAction, value: String) -> (r: Result<
    ScriptEffect,
    ApiError,
>)
    ensures
        all_ws(value@) ==> fails_with(
            r,
            blank_arg_message("spotatui."@ + string_action_name(action), "argument"@),
        ),
        !all_ws(value@) ==> (r matches Ok(e) && string_action_result(action, value, e)),
{
    let fname: String = crate::text::join2("spotatui.", action.name());
    match require_nonempty(fname.as_str(), "argument", value.as_str()) {
        Err(e) => return Err(e),
        Ok(()) => {},
    }
    let effect: ScriptEffect = match action {
        StringAction::TransferPlayback => ScriptEffect::Dispatch(
            IoEvent::TransferPlaybackToDevice(value, false),
        ),
        StringAction::AddToQueue => ScriptEffect::Dispatch(IoEvent::AddItemToQueue(value)),
        StringAction::FollowPlaylist => ScriptEffect::Dispatch(
            IoEvent::UserFollowPlaylist(owned("unknown"), value, None),
        ),
        StringAction::UnfollowPlaylist => ScriptEffect::UnfollowPlaylist(value),
        StringAction::ToggleSaveTrack => ScriptEffect::Dispatch(IoEvent::ToggleSaveTrack(value)),
        StringAction::SaveAlbum => ScriptEffect::Dispatch(IoEvent::CurrentUserSavedAlbumAdd(value)),
        StringAction::UnsaveAlbum => ScriptEffect::Dispatch(
            IoEvent::CurrentUserSavedAlbumDelete(value),
        ),
        StringAction::SaveShow => ScriptEffect::Dispatch(IoEvent::CurrentUserSavedShowAdd(value)),
        StringAction::UnsaveShow => ScriptEffect::Dispatch(
            IoEvent::CurrentUserSavedShowDelete(value),
        ),
        StringAction::FollowArtist => {
            let mut ids: Vec<String> = Vec::new();
            ids.push(value);
            proof {
                assert(ids@ =~= seq![value]);
            }
            ScriptEffect::Dispatch(IoEvent::UserFollowArtists(ids))
        },
        StringAction::UnfollowArtist => {
            let mut ids: Vec<String> = Vec::new();
            ids.push(value);
            proof {
                assert(ids@ =~= seq![value]);
            }
            ScriptEffect::Dispatch(IoEvent::UserUnfollowArtists(ids))
        },
    };
    Ok(effect)
}

/// What `url::Url::parse` makes of `input`: the URL's scheme, or the
/// parser's error message.
pub uninterp spec fn url_parse_scheme(input: Seq<char>) -> Result<Seq<char>, Seq<char>>;

/// Calls `url::Url::parse` and reads the scheme of the parsed URL. Claimed:
/// the result is the named parse outcome of `input`, with the error side
/// carrying the `ParseError`'s display text.
#[verifier::external_body]
fn parsed_url_scheme(input: &str) -> (r: Result<String, String>)
    ensures
        match url_parse_scheme(input@) {
            Ok(s) => r matches Ok(x) && x@ == s,
            Err(e) => r matches Err(x) && x@ == e,
        },
{
    match url::Url::parse(input) {
        Ok(u) => Ok(u.scheme().to_string()),
        Err(e) => Err(e.to_string()),
    }
}

/// The verdict on an HTTP URL given what the URL parser made of it: a parse
/// failure is an invalid URL; only the `http` and `https` schemes pass.
pub fn http_url_verdict(function_name: &str, url: &str, parsed: &Result<String, String>) -> (r: Result<
    (),
    ApiError,
>)
    ensures
        match parsed {
            Err(e) => fails_with(
                r,
                function_name@ + ": invalid URL '"@ + url@ + "': "@ + e@,
            ),
            Ok(s) => if s@ == "http"@ || s@ == "https"@ {
                r is Ok
            } else {
                fails_with(r, function_name@ + ": unsupported URL scheme '"@ + s@ + "'"@)
            },
        },
{
    match parsed {
        Err(e) => {
            let mut m: String = owned(function_name);
            m.append(": invalid URL '");
            m.append(url);
            m.append("': ");
            m.append(e.as_str());
            fail(m)
        },
        Ok(s) => {
            if str_eq(s.as_str(), "http") || str_eq(s.as_str(), "https") {
                Ok(())
            } else {
                let mut m: String = owned(function_name);
                m.append(": unsupported URL scheme '");
                m.append(s.as_str());
                m.append("'");
                fail(m)
            }
        },
    }
}

/// `spotatui.http_get` / `http_post` URL check: parsed by the URL parser,
/// then only `http` and `https` are allowed.
pub fn validate_http_url(function_name: &str, url: &str) -> (r: Result<(), ApiError>)
    ensures
        match url_parse_scheme(url@) {
            Err(e) => fails_with(r, function_name@ + ": invalid URL '"@ + url@ + "': "@ + e),
            Ok(s) => if s == "http"@ || s == "https"@ {
                r is Ok
            } else {
                fails_with(r, function_name@ + ": unsupported URL scheme '"@ + s + "'"@)
            },
        },
{
    let parsed: Result<String, String> = parsed_url_scheme(url);
    http_url_verdict(function_name, url, &parsed)
}

/// An HTTP call is issued only for a valid URL and with a runtime to run it on.
pub fn http_request_check(function_name: &str, url: &str, runtime_available: bool) -> (r: Result<
    (),
    ApiError,
>)
    ensures
        match url_parse_scheme(url@) {
            Err(e) => fails_with(r, function_name@ + ": invalid URL '"@ + url@ + "': "@ + e),
            Ok(s) => if !(s == "http"@ || s == "https"@) {
                fails_with(r, function_name@ + ": unsupported URL scheme '"@ + s + "'"@)
            } else if !runtime_available {
                fails_with(r, function_name@ + ": no tokio runtime available"@)
            } else {
                r is Ok
            },
        },
{
    match validate_http_url(function_name, url) {
        Err(e) => return Err(e),
        Ok(()) => {},
    }
    if !runtime_available {
        let mut m: String = owned(function_name);
        m.append(": no tokio runtime available");
        return fail(m);
    }
    Ok(())
}

/// Whether an HTTP response counts as a success for a plugin: a 2xx status.
pub fn response_ok(status: u16) -> (ok: bool)
    ensures
        ok == (200 <= status && status < 300),
{
    200 <= status && status < 300
}

/// When a timer first fires and, for an interval, how often it repeats.
#[derive(Debug, Clone, Copy, PartialEq, Eq, Structural)]
pub struct TimerSpec {
    pub delay_ms: u64,
    pub interval_ms: Option<u64>,
}

/// `spotatui.set_timeout(ms, fn)` / `set_interval(ms, fn)`: the delay must be
/// non-negative, and an interval at least 1 ms.
pub fn timer_spec(name: &str, ms: i64, repeating: bool) -> (r: Result<TimerSpec, ApiError>)
    ensures
        ms < 0 ==> fails_with(
            r,
            "spotatui."@ + name@ + ": milliseconds must be non-negative, got "@ + dec_int(
                ms as int,
            ),
        ),
        ms == 0 && repeating ==> fails_with(
            r,
            "spotatui."@ + name@ + ": interval must be at least 1 ms"@,
        ),
        ms >= 0 && !(ms == 0 && repeating) ==> r == Ok::<TimerSpec, ApiError>(
            TimerSpec {
                delay_ms: ms as u64,
                interval_ms: if repeating {
                    Some(ms as u64)
                } else {
                    None
                },
            },
        ),
{
    if ms < 0 {
        let mut m: String = owned("spotatui.");
        m.append(name);
        m.append(": milliseconds must be non-negative, got ");
        let s: String = i64_to_string(ms);
        m.append(s.as_str());
        return fail(m);
    }
    if repeating && ms == 0 {
        let mut m: String = owned("spotatui.");
        m.append(name);
        m.append(": interval must be at least 1 ms");
        return fail(m);
    }
    let d: u64 = ms as u64;
    Ok(TimerSpec { delay_ms: d, interval_ms: if repeating { Some(d) } else { None } })
}

/// The next callback token after `current`: one more, and small enough to
/// be a Lua integer key.
pub fn next_callback_token(current: u64) -> (r: Result<u64, ApiError>)
    ensures
        current < i64::MAX ==> r == Ok::<u64, ApiError>((current + 1) as u64),
        current >= i64::MAX ==> fails_with(r, "spotatui: token overflow"@),
{
    match current.checked_add(1) {
        None => fail(owned("spotatui: token overflow")),
        Some(token) => {
            if token > 9223372036854775807u64 {
                fail(owned("spotatui: token overflow"))
            } else {
                Ok(token)
            }
        },
    }
}

/// `spotatui.cancel_timer(handle)`: negative handles name no timer.
pub fn cancel_timer_token(handle: i64) -> (r: Option<u64>)
    ensures
        handle >= 0 ==> r == Some(handle as u64),
        handle < 0 ==> r is None,
{
    if handle >= 0 {
        Some(handle as u64)
    } else {
        None
    }
}

/// `spotatui.navigate(target)`: only the whitelisted targets.
pub fn navigate_effect(target: String) -> (r: Result<ScriptEffect, ApiError>)
    ensures
        nav_targets().contains(target@) ==> r == Ok::<ScriptEffect, ApiError>(
            ScriptEffect::Navigate(target),
        ),
        !nav_targets().contains(target@) ==> fails_with(
            r,
            "spotatui.navigate: unknown target '"@ + target@ + "'; valid targets: "@ + joined(
                nav_targets(),
                ", "@,
            ),
        ),
{
    let targets: Vec<String> = nav_target_list();
    let mut i: usize = 0;
    while i < targets.len()
        invariant
            targets@.map_values(|s: String| s@) == nav_targets(),
            i <= targets@.len(),
            forall|j: int| 0 <= j < i ==> nav_targets()[j] != target@,
        decreases targets@.len() - i,
    {
        if targets[i] == target {
            assert(nav_targets()[i as int] == target@);
            return Ok(ScriptEffect::Navigate(target));
        }
        i = i + 1;
    }
    let mut m: String = owned("spotatui.navigate: unknown target '");
    m.append(target.as_str());
    m.append("'; valid targets: ");
    let list: String = join_with(&targets, ", ");
    m.append(list.as_str());
    fail(m)
}

/// `spotatui.get_search_results(query, cb)`: the query must not be empty.
pub fn search_request(query: String, token: u64) -> (r: Result<DataRequest, ApiError>)
    ensures
        query@.len() == 0 ==> fails_with(
            r,
            "spotatui.get_search_results: query must be a non-empty string"@,
        ),
        query@.len() > 0 ==> r == Ok::<DataRequest, ApiError>(
            DataRequest { token, kind: PluginDataKind::Search, arg: Some(query) },
        ),
{
    if query.as_str().is_empty() {
        return fail(owned("spotatui.get_search_results: query must be a non-empty string"));
    }
    Ok(DataRequest { token, kind: PluginDataKind::Search, arg: Some(query) })
}

/// The storage namespace for the plugin currently on the call stack: its
/// plugin id, which must not be empty.
pub fn storage_namespace(current_plugin: &str) -> (r: Result<String, ApiError>)
    ensures
        plugin_id_of(current_plugin@).len() == 0 ==> fails_with(
            r,
            "spotatui.storage_*: no plugin context (storage is only available from plugin code)"@,
        ),
        plugin_id_of(current_plugin@).len() > 0 ==> (r matches Ok(ns) && ns@ == plugin_id_of(
            current_plugin@,
        )),
{
    let namespace: String = plugin_id(current_plugin);
    if namespace.as_str().is_empty() {
        return fail(
            owned(
                "spotatui.storage_*: no plugin context (storage is only available from plugin code)",
            ),
        );
    }
    Ok(namespace)
}


/// A registered plugin command: its name and the plugin that owns it.
#[derive(Debug, Clone, PartialEq, Eq)]
pub struct CommandEntry {
    pub name: String,
    pub plugin: String,
}

/// The commands registered through `spotatui.register_command`.
#[derive(Debug)]
pub struct CommandRegistry {
    entries: Vec<CommandEntry>,
}

/// The registered names, in registration order.
pub open spec fn command_names(entries: Seq<CommandEntry>) -> Seq<Seq<char>> {
    entries.map_values(|e: CommandEntry| e.name@)
}

impl View for CommandRegistry {
    type V = Seq<CommandEntry>;

    closed spec fn view(&self) -> Seq<CommandEntry> {
        self.entries@
    }
}

fn find_command(entries: &Vec<CommandEntry>, name: &str) -> (r: Option<usize>)
    ensures
        match r {
            Some(i) => i < entries@.len() && entries@[i as int].name@ == name@ && command_names(
                entries@,
            ).contains(name@),
            None => !command_names(entries@).contains(name@),
        },
{
    let mut i: usize = 0;
    while i < entries.len()
        invariant
            i <= entries@.len(),
            forall|j: int| 0 <= j < i ==> entries@[j].name@ != name@,
        decreases entries@.len() - i,
    {
        if str_eq(entries[i].name.as_str(), name) {
            assert(command_names(entries@)[i as int] == name@);
            return Some(i);
        }
        i = i + 1;
    }
    assert forall|j: int| 0 <= j < command_names(entries@).len() implies command_names(entries@)[j] != name@ by {
        assert(command_names(entries@)[j] == entries@[j].name@);
    }
    None
}

impl CommandRegistry {
    /// No commands.
    pub fn new() -> (r: Self)
        ensures
            r@.len() == 0,
    {
        CommandRegistry { entries: Vec::new() }
    }

    /// `spotatui.register_command(name, fn)`: the name must be non-empty,
    /// free of white space, and not registered yet.
    pub fn register(&mut self, name: &str, plugin: &str) -> (r: Result<(), ApiError>)
        ensures
            (name@.len() == 0 || any_ws(name@)) ==> fails_with(
                r,
                "spotatui.register_command: name must be a non-empty string without whitespace"@,
            ) && final(self)@ == old(self)@,
            !(name@.len() == 0 || any_ws(name@)) && command_names(old(self)@).contains(name@)
                ==> fails_with(
                r,
                "spotatui.register_command: command '"@ + name@ + "' is already registered"@,
            ) && final(self)@ == old(self)@,
            !(name@.len() == 0 || any_ws(name@)) && !command_names(old(self)@).contains(name@)
                ==> r is Ok && final(self)@.len() == old(self)@.len() + 1 && final(self)@.drop_last()
                == old(self)@ && final(self)@.last().name@ == name@ && final(self)@.last().plugin@
                == plugin@,
    {
        if name.is_empty() || has_whitespace(name) {
            return fail(
                owned(
                    "spotatui.register_command: name must be a non-empty string without whitespace",
                ),
            );
        }
        if find_command(&self.entries, name).is_some() {
            let mut m: String = owned("spotatui.register_command: command '");
            m.append(name);
            m.append("' is already registered");
            return fail(m);
        }
        self.entries.push(CommandEntry { name: owned(name), plugin: owned(plugin) });
        proof {
            assert(self.entries@.drop_last() =~= old(self)@);
        }
        Ok(())
    }

    /// The plugin that registered command `name`, if any.
    pub fn owner(&self, name: &str) -> (r: Option<String>)
        ensures
            !command_names(self@).contains(name@) ==> r is None,
            command_names(self@).contains(name@) ==> (r matches Some(p) && exists|i: int|
                0 <= i < self@.len() && #[trigger] self@[i].name@ == name@ && self@[i].plugin@
                    == p@),
    {
        match find_command(&self.entries, name) {
            Some(i) => Some(self.entries[i].plugin.clone()),
            None => None,
        }
    }
}

/// Registering a command keeps the registered names distinct.
pub proof fn lemma_register_keeps_names_distinct(
    before: Seq<CommandEntry>,
    after: Seq<CommandEntry>,
    name: Seq<char>,
)
    requires
        command_names(before).no_duplicates(),
        after == before || (after.drop_last() == before && after.len() == before.len() + 1
            && after.last().name@ == name && !command_names(before).contains(name)),
    ensures
        command_names(after).no_duplicates(),
{
    if after != before {
        assert(command_names(after) =~= command_names(before).push(name));
        assert forall|i: int, j: int|
            0 <= i < command_names(after).len() && 0 <= j < command_names(after).len() && i
                != j implies command_names(after)[i] != command_names(after)[j] by {
            if i == before.len() as int {
                assert(command_names(before)[j] == command_names(after)[j]);
            } else if j == before.len() as int {
                assert(command_names(before)[i] == command_names(after)[i]);
            }
        }
    }
}

/// A registered plugin screen.
#[derive(Debug, Clone, PartialEq, Eq)]
pub struct ScreenEntry {
    pub name: String,
    pub plugin: String,
    pub title: String,
}

/// The screens registered through `spotatui.register_screen`.
#[derive(Debug)]
pub struct ScreenRegistry {
    entries: Vec<ScreenEntry>,
}

/// The registered screen names, in registration order.
pub open spec fn screen_names(entries: Seq<ScreenEntry>) -> Seq<Seq<char>> {
    entries.map_values(|e: ScreenEntry| e.name@)
}

impl View for ScreenRegistry {
    type V = Seq<ScreenEntry>;

    closed spec fn view(&self) -> Seq<ScreenEntry> {
        self.entries@
    }
}

fn find_screen(entries: &Vec<ScreenEntry>, name: &str) -> (r: Option<usize>)
    ensures
        match r {
            Some(i) => i < entries@.len() && entries@[i as int].name@ == name@ && screen_names(
                entries@,
            ).contains(name@),
            None => !screen_names(entries@).contains(name@),
        },
{
    let mut i: usize = 0;
    while i < entries.len()
        invariant
            i <= entries@.len(),
            forall|j: int| 0 <= j < i ==> entries@[j].name@ != name@,
        decreases entries@.len() - i,
    {
        if str_eq(entries[i].name.as_str(), name) {
            assert(screen_names(entries@)[i as int] == name@);
            return Some(i);
        }
        i = i + 1;
    }
    assert forall|j: int| 0 <= j < screen_names(entries@).len() implies screen_names(entries@)[j] != name@ by {
        assert(screen_names(entries@)[j] == entries@[j].name@);
    }
    None
}

impl ScreenRegistry {
    /// No screens.
    pub fn new() -> (r: Self)
        ensures
            r@.len() == 0,
    {
        ScreenRegistry { entries: Vec::new() }
    }

    /// `spotatui.register_screen(name, spec)`: a non-empty name without white
    /// space, not registered yet, and a spec with an `on_key` function. The
    /// title defaults to the empty string.
    pub fn register(&mut self, name: &str, plugin: &str, title: Option<String>, has_on_key: bool) -> (r:
        Result<(), ApiError>)
        ensures
            (name@.len() == 0 || any_ws(name@)) ==> fails_with(
                r,
                "spotatui.register_screen: name must be a non-empty string without whitespace"@,
            ) && final(self)@ == old(self)@,
            !(name@.len() == 0 || any_ws(name@)) && screen_names(old(self)@).contains(name@)
                ==> fails_with(
                r,
                "spotatui.register_screen: screen '"@ + name@ + "' is already registered"@,
            ) && final(self)@ == old(self)@,
            !(name@.len() == 0 || any_ws(name@)) && !screen_names(old(self)@).contains(name@)
                && !has_on_key ==> fails_with(
                r,
                "spotatui.register_screen: spec must have an 'on_key' function"@,
            ) && final(self)@ == old(self)@,
            !(name@.len() == 0 || any_ws(name@)) && !screen_names(old(self)@).contains(name@)
                && has_on_key ==> r is Ok && final(self)@.drop_last() == old(self)@ && final(self)@.len() == old(self)@.len() + 1 && final(self)@.last().name@ == name@ && final(self)@.last().plugin@ == plugin@ && final(self)@.last().title@ == match title {
                Some(t) => t@,
                None => Seq::<char>::empty(),
            },
    {
        if name.is_empty() || has_whitespace(name) {
            return fail(
                owned(
                    "spotatui.register_screen: name must be a non-empty string without whitespace",
                ),
            );
        }
        if find_screen(&self.entries, name).is_some() {
            let mut m: String = owned("spotatui.register_screen: screen '");
            m.append(name);
            m.append("' is already registered");
            return fail(m);
        }
        if !has_on_key {
            return fail(owned("spotatui.register_screen: spec must have an 'on_key' function"));
        }
        let t: String = match title {
            Some(t) => t,
            None => String::new(),
        };
        self.entries.push(ScreenEntry { name: owned(name), plugin: owned(plugin), title: t });
        proof {
            assert(self.entries@.drop_last() =~= old(self)@);
        }
        Ok(())
    }

    /// Check that screen `name` exists and belongs to `caller`; returns the
    /// screen's registered title.
    pub fn verify_owner(&self, fn_name: &str, name: &str, caller: &str) -> (r: Result<
        String,
        ApiError,
    >)
        ensures
            !screen_names(self@).contains(name@) ==> fails_with(
                r,
                fn_name@ + ": no screen named '"@ + name@
                    + "' is registered (call register_screen first)"@,
            ),
            screen_names(self@).contains(name@) ==> exists|i: int|
                0 <= i < self@.len() && #[trigger] self@[i].name@ == name@ && (if self@[i].plugin@
                    == caller@ {
                    r matches Ok(t) && t@ == self@[i].title@
                } else {
                    fails_with(
                        r,
                        fn_name@ + ": screen '"@ + name@ + "' belongs to plugin '"@
                            + self@[i].plugin@ + "'"@,
                    )
                }),
    {
        match find_screen(&self.entries, name) {
            None => {
                let mut m: String = owned(fn_name);
                m.append(": no screen named '");
                m.append(name);
                m.append("' is registered (call register_screen first)");
                fail(m)
            },
            Some(i) => {
                let entry: &ScreenEntry = &self.entries[i];
                if !str_eq(entry.plugin.as_str(), caller) {
                    let mut m: String = owned(fn_name);
                    m.append(": screen '");
                    m.append(name);
                    m.append("' belongs to plugin '");
                    m.append(entry.plugin.as_str());
                    m.append("'");
                    fail(m)
                } else {
                    Ok(entry.title.clone())
                }
            },
        }
    }
}

/// Registering a screen keeps the registered screen names distinct.
pub proof fn lemma_register_screen_keeps_names_distinct(
    before: Seq<ScreenEntry>,
    after: Seq<ScreenEntry>,
    name: Seq<char>,
)
    requires
        screen_names(before).no_duplicates(),
        after == before || (after.drop_last() == before && after.len() == before.len() + 1
            && after.last().name@ == name && !screen_names(before).contains(name)),
    ensures
        screen_names(after).no_duplicates(),
{
    if after != before {
        assert(screen_names(after) =~= screen_names(before).push(name));
        assert forall|i: int, j: int|
            0 <= i < screen_names(after).len() && 0 <= j < screen_names(after).len() && i
                != j implies screen_names(after)[i] != screen_names(after)[j] by {
            if i == before.len() as int {
                assert(screen_names(before)[j] == screen_names(after)[j]);
            } else if j == before.len() as int {
                assert(screen_names(before)[i] == screen_names(after)[i]);
            }
        }
    }
}

/// `spotatui.set_theme(tbl)`: every pair must name a recolorable element and
/// carry a valid color; the first bad pair, in the given order, is reported.
pub open spec fn theme_pairs_result(pairs: Seq<(String, String)>) -> Result<
    Seq<(Seq<char>, ThemeColor)>,
    Seq<char>,
>
    decreases pairs.len(),
{
    if pairs.len() == 0 {
        Ok(Seq::empty())
    } else {
        match theme_pairs_result(pairs.drop_last()) {
            Err(e) => Err(e),
            Ok(prev) => {
                let (field, color) = pairs.last();
                if !theme_field_names().contains(field@) {
                    Err("spotatui.set_theme: unknown theme field '"@ + field@ + "'"@)
                } else {
                    match parse_color(color@) {
                        Ok(c) => Ok(prev.push((field@, c))),
                        Err(fault) => Err(
                            "spotatui.set_theme: invalid color for field '"@ + field@ + "': "@
                                + color_fault_text(color@, fault),
                        ),
                    }
                }
            },
        }
    }
}

/// Validate and parse theme overrides into a `SetTheme` effect.
pub fn set_theme_effect(pairs: &Vec<(String, String)>) -> (r: Result<ScriptEffect, ApiError>)
    ensures
        match theme_pairs_result(pairs@) {
            Ok(v) => r matches Ok(ScriptEffect::SetTheme(out)) && out@.map_values(
                |p: (String, ThemeColor)| (p.0@, p.1),
            ) == v,
            Err(m) => fails_with(r, m),
        },
{
    let mut out: Vec<(String, ThemeColor)> = Vec::new();
    let mut i: usize = 0;
    assert(pairs@.subrange(0, 0) =~= Seq::<(String, String)>::empty());
    assert(out@.map_values(|p: (String, ThemeColor)| (p.0@, p.1)) =~= Seq::<
        (Seq<char>, ThemeColor),
    >::empty());
    while i < pairs.len()
        invariant
            i <= pairs@.len(),
            theme_pairs_result(pairs@.subrange(0, i as int)) == Ok::<
                Seq<(Seq<char>, ThemeColor)>,
                Seq<char>,
            >(out@.map_values(|p: (String, ThemeColor)| (p.0@, p.1))),
        decreases pairs@.len() - i,
    {
        let ghost prefix = pairs@.subrange(0, i + 1);
        assert(prefix.drop_last() =~= pairs@.subrange(0, i as int));
        assert(prefix.last() == pairs@[i as int]);
        let field: &String = &pairs[i].0;
        let color_str: &String = &pairs[i].1;
        if !is_theme_field(field.as_str()) {
            let mut m: String = owned("spotatui.set_theme: unknown theme field '");
            m.append(field.as_str());
            m.append("'");
            proof {
                lemma_theme_prefix_error(pairs@, i as int);
            }
            return fail(m);
        }
        match parse_theme_item(color_str.as_str()) {
            Err(e) => {
                let mut m: String = owned("spotatui.set_theme: invalid color for field '");
                m.append(field.as_str());
                m.append("': ");
                let em: String = e.message();
                m.append(em.as_str());
                proof {
                    lemma_theme_prefix_error(pairs@, i as int);
                }
                return fail(m);
            },
            Ok(c) => {
                let ghost before = out@.map_values(|p: (String, ThemeColor)| (p.0@, p.1));
                out.push((field.clone(), c));
                assert(out@.map_values(|p: (String, ThemeColor)| (p.0@, p.1)) =~= before.push(
                    (field@, c),
                ));
            },
        }
        i = i + 1;
    }
    assert(pairs@.subrange(0, pairs@.len() as int) =~= pairs@);
    Ok(ScriptEffect::SetTheme(out))
}

/// Once a prefix of the pairs fails, every longer prefix fails the same way.
proof fn lemma_theme_prefix_error(pairs: Seq<(String, String)>, i: int)
    requires
        0 <= i < pairs.len(),
        theme_pairs_result(pairs.subrange(0, i + 1)) is Err,
    ensures
        theme_pairs_result(pairs) == theme_pairs_result(pairs.subrange(0, i + 1)),
    decreases pairs.len() - i,
{
    if i + 1 == pairs.len() {
        assert(pairs.subrange(0, i + 1) =~= pairs);
    } else {
        let next = pairs.subrange(0, i + 2);
        assert(next.drop_last() =~= pairs.subrange(0, i + 1));
        lemma_theme_prefix_error(pairs, i + 1);
    }
}


/// One item of a styled-lines array, as the Lua value holds it.
#[derive(Debug, Clone, PartialEq, Eq)]
pub enum LineItem {
    /// A plain string.
    Text(String),
    /// A table `{ text, fg?, bold?, italic? }`.
    Styled { text: Option<String>, fg: Option<String>, bold: Option<bool>, italic: Option<bool> },
    /// Any other value, by its Lua type name.
    Other(String),
}

/// A styled-lines argument, as the Lua value holds it.
#[derive(Debug, Clone, PartialEq, Eq)]
pub enum LinesArg {
    /// A single string.
    Text(String),
    /// An array of items.
    Items(Vec<LineItem>),
    /// Any other value, by its Lua type name.
    Other(String),
}

/// A popup line by content: text, color, bold, italic.
pub open spec fn line_view(p: PopupLine) -> (Seq<char>, Option<ThemeColor>, bool, bool) {
    (p.text@, p.fg, p.bold, p.italic)
}

/// What one item parses to, or the message of the error it raises.
pub open spec fn line_item_result(fn_name: Seq<char>, item: LineItem) -> Result<
    (Seq<char>, Option<ThemeColor>, bool, bool),
    Seq<char>,
> {
    match item {
        LineItem::Text(t) => Ok((t@, None, false, false)),
        LineItem::Styled { text, fg, bold, italic } => match text {
            None => Err(fn_name + ": each line table must have a 'text' field"@),
            Some(t) => {
                let b = match bold {
                    Some(x) => x,
                    None => false,
                };
                let i = match italic {
                    Some(x) => x,
                    None => false,
                };
                match fg {
                    None => Ok((t@, None, b, i)),
                    Some(f) => match parse_color(f@) {
                        Ok(c) => Ok((t@, Some(c), b, i)),
                        Err(fault) => Err(
                            fn_name + ": invalid color '"@ + f@ + "': "@ + color_fault_text(
                                f@,
                                fault,
                            ),
                        ),
                    },
                }
            },
        },
        LineItem::Other(ty) => Err(fn_name + ": each line must be a string or table, got "@ + ty@),
    }
}

/// The items in order, stopping at the first error.
pub open spec fn line_items_result(fn_name: Seq<char>, items: Seq<LineItem>) -> Result<
    Seq<(Seq<char>, Option<ThemeColor>, bool, bool)>,
    Seq<char>,
>
    decreases items.len(),
{
    if items.len() == 0 {
        Ok(Seq::empty())
    } else {
        match line_items_result(fn_name, items.drop_last()) {
            Err(e) => Err(e),
            Ok(prev) => match line_item_result(fn_name, items.last()) {
                Err(e) => Err(e),
                Ok(l) => Ok(prev.push(l)),
            },
        }
    }
}

/// What a styled-lines argument parses to, or the message of its error.
pub open spec fn lines_result(fn_name: Seq<char>, val: LinesArg) -> Result<
    Seq<(Seq<char>, Option<ThemeColor>, bool, bool)>,
    Seq<char>,
> {
    match val {
        LinesArg::Text(t) => Ok(seq![(t@, None, false, false)]),
        LinesArg::Items(items) => line_items_result(fn_name, items@),
        LinesArg::Other(ty) => Err(fn_name + ": lines must be a string or array, got "@ + ty@),
    }
}

fn parse_line_item(fn_name: &str, item: &LineItem) -> (r: Result<PopupLine, ApiError>)
    ensures
        match line_item_result(fn_name@, *item) {
            Ok(l) => r matches Ok(p) && line_view(p) == l,
            Err(m) => fails_with(r, m),
        },
{
    match item {
        LineItem::Text(t) => Ok(PopupLine { text: t.clone(), fg: None, bold: false, italic: false }),
        LineItem::Styled { text, fg, bold, italic } => {
            let t: &String = match text {
                Some(t) => t,
                None => {
                    let mut m: String = owned(fn_name);
                    m.append(": each line table must have a 'text' field");
                    return fail(m);
                },
            };
            let b: bool = match bold {
                Some(x) => *x,
                None => false,
            };
            let it: bool = match italic {
                Some(x) => *x,
                None => false,
            };
            let color: Option<ThemeColor> = match fg {
                None => None,
                Some(f) => match parse_theme_item(f.as_str()) {
                    Ok(c) => Some(c),
                    Err(e) => {
                        let mut m: String = owned(fn_name);
                        m.append(": invalid color '");
                        m.append(f.as_str());
                        m.append("': ");
                        let em: String = e.message();
                        m.append(em.as_str());
                        return fail(m);
                    },
                },
            };
            Ok(PopupLine { text: t.clone(), fg: color, bold: b, italic: it })
        },
        LineItem::Other(ty) => {
            let mut m: String = owned(fn_name);
            m.append(": each line must be a string or table, got ");
            m.append(ty.as_str());
            fail(m)
        },
    }
}

/// Once a prefix of the items fails, every longer prefix fails the same way.
proof fn lemma_lines_prefix_error(fn_name: Seq<char>, items: Seq<LineItem>, i: int)
    requires
        0 <= i < items.len(),
        line_items_result(fn_name, items.subrange(0, i + 1)) is Err,
    ensures
        line_items_result(fn_name, items) == line_items_result(fn_name, items.subrange(0, i + 1)),
    decreases items.len() - i,
{
    if i + 1 == items.len() {
        assert(items.subrange(0, i + 1) =~= items);
    } else {
        let next = items.subrange(0, i + 2);
        assert(next.drop_last() =~= items.subrange(0, i + 1));
        lemma_lines_prefix_error(fn_name, items, i + 1);
    }
}

/// Parse styled lines shared by popups and screen widgets: a single string,
/// or an array whose items are each a string or a table
/// `{ text, fg?, bold?, italic? }`.
pub fn parse_styled_lines(fn_name: &str, val: &LinesArg) -> (r: Result<Vec<PopupLine>, ApiError>)
    ensures
        match lines_result(fn_name@, *val) {
            Ok(v) => r matches Ok(lines) && lines@.map_values(|p: PopupLine| line_view(p)) == v,
            Err(m) => fails_with(r, m),
        },
{
    match val {
        LinesArg::Text(t) => {
            let mut lines: Vec<PopupLine> = Vec::new();
            lines.push(PopupLine { text: t.clone(), fg: None, bold: false, italic: false });
            assert(lines@.map_values(|p: PopupLine| line_view(p)) =~= seq![
                (t@, None::<ThemeColor>, false, false),
            ]);
            Ok(lines)
        },
        LinesArg::Items(items) => {
            let mut lines: Vec<PopupLine> = Vec::new();
            let mut i: usize = 0;
            assert(items@.subrange(0, 0) =~= Seq::<LineItem>::empty());
            assert(lines@.map_values(|p: PopupLine| line_view(p)) =~= Seq::<
                (Seq<char>, Option<ThemeColor>, bool, bool),
            >::empty());
            while i < items.len()
                invariant
                    *val == LinesArg::Items(*items),
                    i <= items@.len(),
                    line_items_result(fn_name@, items@.subrange(0, i as int)) == Ok::<
                        Seq<(Seq<char>, Option<ThemeColor>, bool, bool)>,
                        Seq<char>,
                    >(lines@.map_values(|p: PopupLine| line_view(p))),
                decreases items@.len() - i,
            {
                let ghost prefix = items@.subrange(0, i + 1);
                assert(prefix.drop_last() =~= items@.subrange(0, i as int));
                assert(prefix.last() == items@[i as int]);
                match parse_line_item(fn_name, &items[i]) {
                    Err(e) => {
                        proof {
                            assert(line_items_result(fn_name@, prefix) == Err::<
                                Seq<(Seq<char>, Option<ThemeColor>, bool, bool)>,
                                Seq<char>,
                            >(e.message@));
                            lemma_lines_prefix_error(fn_name@, items@, i as int);
                        }
                        return Err(e);
                    },
                    Ok(line) => {
                        let ghost before = lines@.map_values(|p: PopupLine| line_view(p));
                        lines.push(line);
                        assert(lines@.map_values(|p: PopupLine| line_view(p)) =~= before.push(
                            line_view(line),
                        ));
                    },
                }
                i = i + 1;
            }
            assert(items@.subrange(0, items@.len() as int) =~= items@);
            Ok(lines)
        },
        LinesArg::Other(ty) => {
            let mut m: String = owned(fn_name);
            m.append(": lines must be a string or array, got ");
            m.append(ty.as_str());
            fail(m)
        },
    }
}

/// `spotatui.popup(title, lines)`: a `ShowPopup` effect.
pub fn popup_effect(title: String, lines: &LinesArg) -> (r: Result<ScriptEffect, ApiError>)
    ensures
        match lines_result("spotatui.popup"@, *lines) {
            Ok(v) => r matches Ok(ScriptEffect::ShowPopup(p)) && p.title == title && p.lines@.map_values(
                |l: PopupLine| line_view(l),
            ) == v,
            Err(m) => fails_with(r, m),
        },
{
    match parse_styled_lines("spotatui.popup", lines) {
        Err(e) => Err(e),
        Ok(ls) => Ok(ScriptEffect::ShowPopup(crate::domain::plugin_api::PluginPopup { title, lines: ls })),
    }
}

/// One widget table of `spotatui.set_screen`, as the Lua value holds it.
#[derive(Debug, Clone, PartialEq, Eq)]
pub struct WidgetSpec {
    /// The `type` field.
    pub kind: Option<String>,
    /// The `lines` field (paragraphs).
    pub lines: LinesArg,
    /// The `items` field (lists).
    pub items: LinesArg,
    pub title: Option<String>,
    pub height: Option<u16>,
    /// The 1-based `selected` field (lists).
    pub selected: Option<i64>,
    /// Bit pattern of the `ratio` field (0.0 when absent), clamped to `0.0..=1.0`.
    pub ratio_bits: u64,
    pub label: Option<String>,
}

/// A widget by content.
pub enum WidgetShape {
    Paragraph(Seq<(Seq<char>, Option<ThemeColor>, bool, bool)>, Option<u16>),
    List(Option<Seq<char>>, Seq<(Seq<char>, Option<ThemeColor>, bool, bool)>, Option<usize>, Option<u16>),
    Gauge(u64, Option<Seq<char>>),
}

/// A widget's content.
pub open spec fn widget_view(w: PluginWidget) -> WidgetShape {
    match w {
        PluginWidget::Paragraph { lines, height } => WidgetShape::Paragraph(
            lines@.map_values(|p: PopupLine| line_view(p)),
            height,
        ),
        PluginWidget::List { title, items, selected, height } => WidgetShape::List(
            match title {
                Some(t) => Some(t@),
                None => None,
            },
            items@.map_values(|p: PopupLine| line_view(p)),
            selected,
            height,
        ),
        PluginWidget::Gauge { ratio_bits, label } => WidgetShape::Gauge(
            ratio_bits,
            match label {
                Some(t) => Some(t@),
                None => None,
            },
        ),
    }
}

/// What one widget table parses to, or the message of its error.
pub open spec fn widget_result(w: WidgetSpec) -> Result<WidgetShape, Seq<char>> {
    let fname = "spotatui.set_screen"@;
    match w.kind {
        None => Err(fname + ": each widget must have a 'type' field"@),
        Some(k) => if k@ == "paragraph"@ {
            match lines_result(fname, w.lines) {
                Err(e) => Err(e),
                Ok(ls) => Ok(WidgetShape::Paragraph(ls, w.height)),
            }
        } else if k@ == "list"@ {
            match lines_result(fname, w.items) {
                Err(e) => Err(e),
                Ok(ls) => match w.selected {
                    Some(s) => if s >= 1 {
                        Ok(
                            WidgetShape::List(
                                match w.title {
                                    Some(t) => Some(t@),
                                    None => None,
                                },
                                ls,
                                Some((s - 1) as usize),
                                w.height,
                            ),
                        )
                    } else {
                        Err(
                            fname + ": list 'selected' is 1-based and must be >= 1, got "@
                                + dec_int(s as int),
                        )
                    },
                    None => Ok(
                        WidgetShape::List(
                            match w.title {
                                Some(t) => Some(t@),
                                None => None,
                            },
                            ls,
                            None,
                            w.height,
                        ),
                    ),
                },
            }
        } else if k@ == "gauge"@ {
            Ok(
                WidgetShape::Gauge(
                    w.ratio_bits,
                    match w.label {
                        Some(t) => Some(t@),
                        None => None,
                    },
                ),
            )
        } else {
            Err(
                fname + ": unknown widget type '"@ + k@
                    + "' (expected paragraph, list or gauge)"@,
            )
        },
    }
}

/// The widgets in order, stopping at the first error.
pub open spec fn widgets_result(ws: Seq<WidgetSpec>) -> Result<Seq<WidgetShape>, Seq<char>>
    decreases ws.len(),
{
    if ws.len() == 0 {
        Ok(Seq::empty())
    } else {
        match widgets_result(ws.drop_last()) {
            Err(e) => Err(e),
            Ok(prev) => match widget_result(ws.last()) {
                Err(e) => Err(e),
                Ok(w) => Ok(prev.push(w)),
            },
        }
    }
}

fn parse_widget(w: &WidgetSpec) -> (r: Result<PluginWidget, ApiError>)
    ensures
        match widget_result(*w) {
            Ok(shape) => r matches Ok(x) && widget_view(x) == shape,
            Err(m) => fails_with(r, m),
        },
{
    let kind: &String = match &w.kind {
        Some(k) => k,
        None => {
            let mut m: String = owned("spotatui.set_screen");
            m.append(": each widget must have a 'type' field");
            return fail(m);
        },
    };
    if str_eq(kind.as_str(), "paragraph") {
        match parse_styled_lines("spotatui.set_screen", &w.lines) {
            Err(e) => Err(e),
            Ok(lines) => Ok(PluginWidget::Paragraph { lines, height: w.height }),
        }
    } else if str_eq(kind.as_str(), "list") {
        let items: Vec<PopupLine> = match parse_styled_lines("spotatui.set_screen", &w.items) {
            Err(e) => return Err(e),
            Ok(items) => items,
        };
        let selected: Option<usize> = match w.selected {
            Some(s) => {
                if s >= 1 {
                    Some((s - 1) as usize)
                } else {
                    let mut m: String = owned("spotatui.set_screen");
                    m.append(": list 'selected' is 1-based and must be >= 1, got ");
                    let ss: String = i64_to_string(s);
                    m.append(ss.as_str());
                    return fail(m);
                }
            },
            None => None,
        };
        Ok(PluginWidget::List { title: w.title.clone(), items, selected, height: w.height })
    } else if str_eq(kind.as_str(), "gauge") {
        Ok(PluginWidget::Gauge { ratio_bits: w.ratio_bits, label: w.label.clone() })
    } else {
        let mut m: String = owned("spotatui.set_screen");
        m.append(": unknown widget type '");
        m.append(kind.as_str());
        m.append("' (expected paragraph, list or gauge)");
        fail(m)
    }
}

proof fn lemma_widgets_prefix_error(ws: Seq<WidgetSpec>, i: int)
    requires
        0 <= i < ws.len(),
        widgets_result(ws.subrange(0, i + 1)) is Err,
    ensures
        widgets_result(ws) == widgets_result(ws.subrange(0, i + 1)),
    decreases ws.len() - i,
{
    if i + 1 == ws.len() {
        assert(ws.subrange(0, i + 1) =~= ws);
    } else {
        let next = ws.subrange(0, i + 2);
        assert(next.drop_last() =~= ws.subrange(0, i + 1));
        lemma_widgets_prefix_error(ws, i + 1);
    }
}

/// Parse the widget array of `spotatui.set_screen`: each widget is a
/// paragraph, a list (1-based `selected`, stored 0-based) or a gauge.
pub fn parse_screen_widgets(widgets: &Vec<WidgetSpec>) -> (r: Result<Vec<PluginWidget>, ApiError>)
    ensures
        match widgets_result(widgets@) {
            Ok(v) => r matches Ok(out) && out@.map_values(|w: PluginWidget| widget_view(w)) == v,
            Err(m) => fails_with(r, m),
        },
{
    let mut out: Vec<PluginWidget> = Vec::new();
    let mut i: usize = 0;
    assert(widgets@.subrange(0, 0) =~= Seq::<WidgetSpec>::empty());
    assert(out@.map_values(|w: PluginWidget| widget_view(w)) =~= Seq::<WidgetShape>::empty());
    while i < widgets.len()
        invariant
            i <= widgets@.len(),
            widgets_result(widgets@.subrange(0, i as int)) == Ok::<Seq<WidgetShape>, Seq<char>>(
                out@.map_values(|w: PluginWidget| widget_view(w)),
            ),
        decreases widgets@.len() - i,
    {
        let ghost prefix = widgets@.subrange(0, i + 1);
        assert(prefix.drop_last() =~= widgets@.subrange(0, i as int));
        assert(prefix.last() == widgets@[i as int]);
        match parse_widget(&widgets[i]) {
            Err(e) => {
                proof {
                    lemma_widgets_prefix_error(widgets@, i as int);
                }
                return Err(e);
            },
            Ok(w) => {
                let ghost before = out@.map_values(|w: PluginWidget| widget_view(w));
                out.push(w);
                assert(out@.map_values(|w: PluginWidget| widget_view(w)) =~= before.push(
                    widget_view(w),
                ));
            },
        }
        i = i + 1;
    }
    assert(widgets@.subrange(0, widgets@.len() as int) =~= widgets@);
    Ok(out)
}

} // verus!
