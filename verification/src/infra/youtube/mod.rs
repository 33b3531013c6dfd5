//! The YouTube media source, which drives the external `yt-dlp` binary.
//!
//! This module holds what the source decides: its `youtube:<video-id>`
//! URIs and the validation of video ids (an id ends up inside a `yt-dlp`
//! argument, so it must not be able to carry flags or URL structure), the
//! argument lists it runs `yt-dlp` with, what it reports when a run fails,
//! and how a search row becomes a track. Running the process is left to the
//! caller.

use vstd::prelude::*;

use crate::domain::plugin_api::TrackInfo;
use crate::domain::user_config::{trim, trim_str};
use crate::text::{join2, join3, joined, owned, starts_with, suffix_from, u64_to_string, dec};

verus! {

/// The prefix of the URIs the YouTube source owns.
pub open spec fn youtube_prefix() -> Seq<char> {
    "youtube:"@
}

/// The `yt-dlp` binary used when none is configured (found through `$PATH`).
pub open spec fn default_ytdlp() -> Seq<char> {
    "yt-dlp"@
}

/// Videos per search.
pub const SEARCH_LIMIT: u64 = 20;

/// Longest a search run may take, in seconds.
pub const SEARCH_TIMEOUT_SECS: u64 = 45;

/// Longest a download run may take, in seconds.
pub const DOWNLOAD_TIMEOUT_SECS: u64 = 180;

/// Whether a URI is owned by the YouTube source.
pub fn is_youtube_uri(uri: &str) -> (b: bool)
    ensures
        b == youtube_prefix().is_prefix_of(uri@),
{
    proof {
        reveal_strlit("youtube:");
    }
    starts_with(uri, "youtube:")
}

/// The characters a video id may hold: ASCII letters and digits, `-`, `_`.
pub open spec fn is_id_char(c: char) -> bool {
    ('a' <= c && c <= 'z') || ('A' <= c && c <= 'Z') || ('0' <= c && c <= '9') || c == '-' || c
        == '_'
}

/// Every character of `s` may appear in a video id.
pub open spec fn id_chars_only(s: Seq<char>) -> bool {
    forall|i: int| 0 <= i < s.len() ==> is_id_char(#[trigger] s[i])
}

/// A video id as the source accepts it: not empty, and only id characters.
pub open spec fn is_valid_video_id(s: Seq<char>) -> bool {
    s.len() > 0 && id_chars_only(s)
}

fn id_char(c: char) -> (b: bool)
    ensures
        b == is_id_char(c),
{
    ('a' <= c && c <= 'z') || ('A' <= c && c <= 'Z') || ('0' <= c && c <= '9') || c == '-' || c
        == '_'
}

/// Whether every character of `s` may appear in a video id.
pub fn has_only_id_chars(s: &str) -> (b: bool)
    ensures
        b == id_chars_only(s@),
{
    let n: usize = s.unicode_len();
    let mut i: usize = 0;
    while i < n
        invariant
            n == s@.len(),
            i <= n,
            forall|k: int| 0 <= k < i ==> is_id_char(#[trigger] s@[k]),
        decreases n - i,
    {
        if !id_char(s.get_char(i)) {
            return false;
        }
        i = i + 1;
    }
    true
}

/// Why a URI or id was refused.
#[derive(Debug, Clone, PartialEq, Eq)]
pub enum VideoIdError {
    /// The URI (given) does not start with `youtube:`.
    NotYouTube(String),
    /// The id (given) is empty or holds a character other than ASCII
    /// letters, digits, `-` and `_`.
    InvalidId(String),
}

/// The outcome of extracting the video id of `uri`.
pub open spec fn video_id_of(uri: Seq<char>) -> Result<Seq<char>, VideoIdError> {
    if !youtube_prefix().is_prefix_of(uri) {
        Err(VideoIdError::NotYouTube(arbitrary()))
    } else {
        let id = uri.subrange(youtube_prefix().len() as int, uri.len() as int);
        if is_valid_video_id(id) {
            Ok(id)
        } else {
            Err(VideoIdError::InvalidId(arbitrary()))
        }
    }
}

/// Strip the `youtube:` prefix and return the video id, refusing anything
/// that is not a non-empty run of ASCII letters, digits, `-` and `_`.
pub fn video_id_from_uri(uri: &str) -> (r: Result<&str, VideoIdError>)
    ensures
        match video_id_of(uri@) {
            Ok(id) => r matches Ok(x) && x@ == id,
            Err(VideoIdError::NotYouTube(_)) => r matches Err(VideoIdError::NotYouTube(u)) && u@
                == uri@,
            Err(VideoIdError::InvalidId(_)) => r matches Err(VideoIdError::InvalidId(i)) && i@
                == uri@.subrange(youtube_prefix().len() as int, uri@.len() as int),
        },
{
    proof {
        reveal_strlit("youtube:");
    }
    if !starts_with(uri, "youtube:") {
        return Err(VideoIdError::NotYouTube(owned(uri)));
    }
    let id: &str = suffix_from(uri, 8);
    if id.unicode_len() == 0 || !has_only_id_chars(id) {
        return Err(VideoIdError::InvalidId(owned(id)));
    }
    Ok(id)
}

/// The `youtube:` URI of a video id.
pub fn uri_for_video_id(id: &str) -> (uri: String)
    ensures
        uri@ == youtube_prefix() + id@,
{
    proof {
        reveal_strlit("youtube:");
    }
    join2("youtube:", id)
}

/// A URI built from a video id is a YouTube URI, and a valid id comes back
/// out of it unchanged.
pub proof fn lemma_video_uri_round_trip(id: Seq<char>)
    ensures
        youtube_prefix().is_prefix_of(youtube_prefix() + id),
        is_valid_video_id(id) ==> video_id_of(youtube_prefix() + id) == Ok::<
            Seq<char>,
            VideoIdError,
        >(id),
{
    let uri = youtube_prefix() + id;
    assert(uri.subrange(0, youtube_prefix().len() as int) =~= youtube_prefix());
    assert(uri.subrange(youtube_prefix().len() as int, uri.len() as int) =~= id);
}

/// The deterministic thumbnail of a video (`hqdefault.jpg` exists for every
/// video), used when a search row carries none.
pub fn thumbnail_url_for_video_id(video_id: &str) -> (url: String)
    ensures
        url@ == "https://i.ytimg.com/vi/"@ + video_id@ + "/hqdefault.jpg"@,
{
    join3("https://i.ytimg.com/vi/", video_id, "/hqdefault.jpg")
}

/// Client for YouTube backed by an external `yt-dlp` binary.
#[derive(Debug, Clone, PartialEq, Eq)]
pub struct YouTubeSource {
    ytdlp: String,
}

impl YouTubeSource {
    /// The binary this source runs.
    pub closed spec fn binary_view(&self) -> Seq<char> {
        self.ytdlp@
    }

    /// `ytdlp_path` is the user's configured binary, if any; otherwise
    /// `yt-dlp` is looked up on `$PATH`.
    pub fn new(ytdlp_path: Option<String>) -> (s: Self)
        ensures
            s.binary_view() == match ytdlp_path {
                Some(p) => p@,
                None => default_ytdlp(),
            },
    {
        let ytdlp: String = match ytdlp_path {
            Some(p) => p,
            None => owned("yt-dlp"),
        };
        YouTubeSource { ytdlp }
    }

    /// The binary this source runs.
    pub fn binary(&self) -> (b: &str)
        ensures
            b@ == self.binary_view(),
    {
        self.ytdlp.as_str()
    }
}

/// The views of a list of owned strings.
pub open spec fn views(v: Seq<String>) -> Seq<Seq<char>> {
    v.map_values(|s: String| s@)
}

/// The arguments of a flat search for `query` (one JSON object per line,
/// without resolving each video page).
pub open spec fn search_arg_list(query: Seq<char>) -> Seq<Seq<char>> {
    seq![
        "--flat-playlist"@,
        "--dump-json"@,
        "--no-warnings"@,
        "ytsearch"@ + dec(SEARCH_LIMIT as nat) + ":"@ + query,
    ]
}

/// The `yt-dlp` arguments of a search for `query`.
pub fn search_args(query: &str) -> (args: Vec<String>)
    ensures
        views(args@) == search_arg_list(query@),
{
    let mut args: Vec<String> = Vec::new();
    args.push(owned("--flat-playlist"));
    args.push(owned("--dump-json"));
    args.push(owned("--no-warnings"));
    let limit: String = u64_to_string(SEARCH_LIMIT);
    let mut term: String = owned("ytsearch");
    term.append(limit.as_str());
    term.append(":");
    term.append(query);
    args.push(term);
    assert(views(args@) =~= search_arg_list(query@));
    args
}

/// The audio format asked for: itag 140 (AAC in M4A) first, then any M4A
/// audio, then any audio.
pub open spec fn format_selector() -> Seq<char> {
    "140/bestaudio[ext=m4a]/bestaudio"@
}

/// The arguments of a download of `video_id`'s audio into `dest`.
pub open spec fn download_arg_list(video_id: Seq<char>, dest: Seq<char>) -> Seq<Seq<char>> {
    seq![
        "-f"@,
        format_selector(),
        "--no-playlist"@,
        "--force-overwrites"@,
        "--no-part"@,
        "--no-warnings"@,
        "--no-progress"@,
        "--quiet"@,
        "-o"@,
        dest,
        "https://www.youtube.com/watch?v="@ + video_id,
    ]
}

/// The `yt-dlp` arguments of a download of `video_id`'s audio into `dest`.
/// The id is checked again here (only id characters), as this is reachable
/// without going through [`video_id_from_uri`].
pub fn download_args(video_id: &str, dest: &str) -> (r: Result<Vec<String>, VideoIdError>)
    ensures
        id_chars_only(video_id@) ==> (r matches Ok(args) && views(args@) == download_arg_list(
            video_id@,
            dest@,
        )),
        !id_chars_only(video_id@) ==> (r matches Err(VideoIdError::InvalidId(i)) && i@
            == video_id@),
{
    if !has_only_id_chars(video_id) {
        return Err(VideoIdError::InvalidId(owned(video_id)));
    }
    let mut args: Vec<String> = Vec::new();
    args.push(owned("-f"));
    args.push(owned("140/bestaudio[ext=m4a]/bestaudio"));
    args.push(owned("--no-playlist"));
    args.push(owned("--force-overwrites"));
    args.push(owned("--no-part"));
    args.push(owned("--no-warnings"));
    args.push(owned("--no-progress"));
    args.push(owned("--quiet"));
    args.push(owned("-o"));
    args.push(owned(dest));
    args.push(join2("https://www.youtube.com/watch?v=", video_id));
    assert(views(args@) =~= download_arg_list(video_id@, dest@));
    Ok(args)
}

/// `str::lines`: the text split at `\n`, one `\r` right before a `\n`
/// dropped, and no empty last line for a text ending in a line break.
pub open spec fn text_lines(s: Seq<char>) -> Seq<Seq<char>>
    decreases s.len(),
{
    if s.len() == 0 {
        Seq::empty()
    } else {
        let k = first_newline(s);
        proof {
            lemma_first_newline(s);
        }
        if k < 0 {
            seq![s]
        } else {
            let line = s.subrange(0, k);
            let line = if line.len() > 0 && line.last() == '\r' {
                line.drop_last()
            } else {
                line
            };
            seq![line] + text_lines(s.subrange(k + 1, s.len() as int))
        }
    }
}

/// Index of the first `\n` in `s`, or -1.
pub open spec fn first_newline(s: Seq<char>) -> int
    decreases s.len(),
{
    if s.len() == 0 {
        -1
    } else if s[0] == '\n' {
        0
    } else {
        let k = first_newline(s.drop_first());
        if k < 0 {
            -1
        } else {
            k + 1
        }
    }
}

pub proof fn lemma_first_newline(s: Seq<char>)
    ensures
        -1 <= first_newline(s) < s.len(),
        first_newline(s) >= 0 ==> s[first_newline(s)] == '\n',
        forall|i: int| 0 <= i < s.len() && (first_newline(s) < 0 || i < first_newline(s)) ==> s[i]
            != '\n',
    decreases s.len(),
{
    if s.len() > 0 && s[0] != '\n' {
        lemma_first_newline(s.drop_first());
        assert forall|i: int|
            0 <= i < s.len() && (first_newline(s) < 0 || i < first_newline(s)) implies s[i]
            != '\n' by {
            if i > 0 {
                assert(s[i] == s.drop_first()[i - 1]);
            }
        }
    }
}

/// Split `s` into its lines the way `str::lines` does.
pub fn split_lines(s: &str) -> (lines: Vec<String>)
    ensures
        views(lines@) == text_lines(s@),
{
    let n: usize = s.unicode_len();
    let mut lines: Vec<String> = Vec::new();
    let mut start: usize = 0;
    let mut line: String = String::new();
    let mut i: usize = 0;
    proof {
        assert(s@.subrange(0, n as int) =~= s@);
        assert(views(lines@) + text_lines(s@) =~= text_lines(s@));
    }
    // Invariant: the lines before `start` are done; `line` holds s[start..i],
    // which has no line break.
    while i < n
        invariant
            n == s@.len(),
            start <= i <= n,
            line@ == s@.subrange(start as int, i as int),
            forall|k: int| start <= k < i ==> s@[k] != '\n',
            views(lines@) + text_lines(s@.subrange(start as int, n as int)) == text_lines(s@),
        decreases n - i,
    {
        let c: char = s.get_char(i);
        if c == '\n' {
            let ghost rest = s@.subrange(start as int, n as int);
            proof {
                lemma_first_newline(rest);
                assert(rest[i - start] == '\n');
                assert forall|k: int| 0 <= k < i - start implies rest[k] != '\n' by {
                    assert(rest[k] == s@[start + k]);
                }
                lemma_first_newline_is(rest, i - start);
                assert(rest.subrange(0, i - start) =~= line@);
                assert(rest.subrange(i - start + 1, rest.len() as int) =~= s@.subrange(
                    i + 1,
                    n as int,
                ));
            }
            let done: String = drop_trailing_cr(line);
            let ghost before = lines@;
            lines.push(done);
            proof {
                assert(views(lines@) =~= views(before).push(done@));
            }
            line = String::new();
            start = i + 1;
            proof {
                assert(line@ =~= s@.subrange(start as int, start as int));
            }
        } else {
            line.push(c);
            proof {
                assert(line@ =~= s@.subrange(start as int, i + 1));
            }
        }
        i = i + 1;
    }
    if start < n {
        let ghost rest = s@.subrange(start as int, n as int);
        proof {
            lemma_first_newline(rest);
            assert forall|k: int| 0 <= k < rest.len() implies rest[k] != '\n' by {
                assert(rest[k] == s@[start + k]);
            }
            lemma_no_newline(rest);
            assert(line@ =~= rest);
        }
        let ghost before = lines@;
        lines.push(line);
        proof {
            assert(views(lines@) =~= views(before).push(rest));
        }
    } else {
        proof {
            assert(s@.subrange(start as int, n as int) =~= Seq::<char>::empty());
            assert(views(lines@) + Seq::<Seq<char>>::empty() =~= views(lines@));
        }
    }
    lines
}

proof fn lemma_first_newline_is(s: Seq<char>, k: int)
    requires
        0 <= k < s.len(),
        s[k] == '\n',
        forall|i: int| 0 <= i < k ==> s[i] != '\n',
    ensures
        first_newline(s) == k,
    decreases s.len(),
{
    if k > 0 {
        assert forall|i: int| 0 <= i < k - 1 implies s.drop_first()[i] != '\n' by {
            assert(s.drop_first()[i] == s[i + 1]);
        }
        lemma_first_newline_is(s.drop_first(), k - 1);
    }
}

proof fn lemma_no_newline(s: Seq<char>)
    requires
        forall|i: int| 0 <= i < s.len() ==> s[i] != '\n',
    ensures
        first_newline(s) == -1,
    decreases s.len(),
{
    if s.len() > 0 {
        assert forall|i: int| 0 <= i < s.drop_first().len() implies s.drop_first()[i] != '\n' by {
            assert(s.drop_first()[i] == s[i + 1]);
        }
        lemma_no_newline(s.drop_first());
    }
}

/// `line` without one trailing `\r`.
fn drop_trailing_cr(line: String) -> (r: String)
    ensures
        r@ == if line@.len() > 0 && line@.last() == '\r' {
            line@.drop_last()
        } else {
            line@
        },
{
    let n: usize = line.as_str().unicode_len();
    if n > 0 && line.as_str().get_char(n - 1) == '\r' {
        let kept: &str = line.as_str().substring_char(0, n - 1);
        proof {
            assert(kept@ =~= line@.drop_last());
        }
        owned(kept)
    } else {
        line
    }
}

/// The last (up to) three entries of `lines`, in order.
pub open spec fn last_three(lines: Seq<Seq<char>>) -> Seq<Seq<char>> {
    if lines.len() <= 3 {
        lines
    } else {
        lines.subrange(lines.len() - 3, lines.len() as int)
    }
}

/// What a failed `yt-dlp` run reports: the exit status and the last three
/// lines of its error output (where `yt-dlp` prints its real error), or a
/// note that there was none.
pub open spec fn failure_text(status: Seq<char>, stderr: Seq<char>) -> Seq<char> {
    let tail = joined(last_three(text_lines(stderr)), " | "@);
    "yt-dlp failed ("@ + status + "): "@ + if tail.len() == 0 {
        "no error output"@
    } else {
        tail
    }
}

/// The message for a `yt-dlp` run that exited with `status` (its display
/// text) after writing `stderr`.
pub fn failure_message(status: &str, stderr: &str) -> (m: String)
    ensures
        m@ == failure_text(status@, stderr@),
{
    let lines: Vec<String> = split_lines(stderr);
    let n: usize = lines.len();
    let mut tail_lines: Vec<String> = Vec::new();
    let mut i: usize = if n > 3 {
        n - 3
    } else {
        0
    };
    let first: usize = i;
    while i < n
        invariant
            n == lines@.len(),
            first <= i <= n,
            views(tail_lines@) == views(lines@).subrange(first as int, i as int),
        decreases n - i,
    {
        let ghost before = tail_lines@;
        tail_lines.push(lines[i].clone());
        proof {
            assert(views(tail_lines@) =~= views(before).push(lines@[i as int]@));
            assert(views(tail_lines@) =~= views(lines@).subrange(first as int, i + 1));
        }
        i = i + 1;
    }
    proof {
        assert(views(tail_lines@) =~= last_three(views(lines@)));
    }
    let tail: String = crate::text::join_with(&tail_lines, " | ");
    let mut m: String = owned("yt-dlp failed (");
    m.append(status);
    m.append("): ");
    if tail.as_str().unicode_len() == 0 {
        m.append("no error output");
    } else {
        m.append(tail.as_str());
    }
    m
}

/// What a run that could not be started reports: a hint to install
/// `yt-dlp` (or configure its path) when the binary was not found,
/// otherwise the error.
pub open spec fn spawn_failure_text(ytdlp: Seq<char>, not_found: bool, error: Seq<char>) -> Seq<char> {
    if not_found {
        "`"@ + ytdlp + "` not found \u{2014} install yt-dlp (or set behavior.ytdlp_path)"@
    } else {
        "failed to spawn `"@ + ytdlp + "`: "@ + error
    }
}

/// The message for a `yt-dlp` run that could not be started.
pub fn spawn_failure_message(ytdlp: &str, not_found: bool, error: &str) -> (m: String)
    ensures
        m@ == spawn_failure_text(ytdlp@, not_found, error@),
{
    if not_found {
        join3("`", ytdlp, "` not found \u{2014} install yt-dlp (or set behavior.ytdlp_path)")
    } else {
        let mut m: String = join3("failed to spawn `", ytdlp, "`: ");
        m.append(error);
        m
    }
}

/// The message for a `yt-dlp` run that took longer than `secs` seconds.
pub fn timeout_message(secs: u64) -> (m: String)
    ensures
        m@ == "yt-dlp timed out after "@ + dec(secs as nat) + "s"@,
{
    let n: String = u64_to_string(secs);
    join3("yt-dlp timed out after ", n.as_str(), "s")
}

/// One row of a flat `yt-dlp` search. Rows are sparse, so everything may
/// be missing; a duration that is present is in milliseconds.
#[derive(Debug, Clone, PartialEq, Eq)]
pub struct YtVideo {
    pub id: String,
    pub title: String,
    /// Channel name; preferred over `uploader`.
    pub channel: Option<String>,
    pub uploader: Option<String>,
    /// Length in milliseconds; none for livestreams and some flat rows.
    pub duration_ms: Option<u64>,
    pub view_count: Option<u64>,
    pub thumbnail: Option<String>,
}

/// The rows that carry a video id, in order.
pub fn keep_videos_with_id(rows: Vec<YtVideo>) -> (kept: Vec<YtVideo>)
    ensures
        kept@ == rows@.filter(|v: YtVideo| v.id@.len() > 0),
{
    let mut kept: Vec<YtVideo> = Vec::new();
    let mut rest: Vec<YtVideo> = rows;
    let ghost all = rest@;
    let ghost pred = |v: YtVideo| v.id@.len() > 0;
    while rest.len() > 0
        invariant
            rest@.len() <= all.len(),
            all == all.subrange(0, all.len() - rest@.len()) + rest@,
            kept@ == all.subrange(0, all.len() - rest@.len()).filter(pred),
            pred == (|v: YtVideo| v.id@.len() > 0),
        decreases rest@.len(),
    {
        let ghost done = all.subrange(0, all.len() - rest@.len());
        let ghost before = rest@;
        let v: YtVideo = rest.remove(0);
        proof {
            let done2 = all.subrange(0, all.len() - rest@.len());
            assert(done2 =~= done.push(v));
            assert(done2.drop_last() =~= done);
            assert(rest@ =~= before.drop_first());
            assert(all =~= done2 + rest@);
        }
        let keep: bool = v.id.as_str().unicode_len() > 0;
        if keep {
            kept.push(v);
        }
        proof {
            let done2 = all.subrange(0, all.len() - rest@.len());
            reveal(Seq::filter);
            assert(done2.filter(pred) == if pred(done2.last()) {
                done2.drop_last().filter(pred).push(done2.last())
            } else {
                done2.drop_last().filter(pred)
            });
        }
    }
    proof {
        assert(all.subrange(0, all.len() as int) =~= all);
    }
    kept
}

/// The channel shown for a row: `channel`, else `uploader`, trimmed; empty
/// when neither is there.
pub open spec fn channel_of(v: YtVideo) -> Seq<char> {
    match v.channel {
        Some(c) => trim(c@),
        None => match v.uploader {
            Some(u) => trim(u@),
            None => Seq::empty(),
        },
    }
}

/// The track a search row becomes: the `youtube:` URI and the id, the
/// trimmed title, the channel as the only artist (none when empty), the
/// given album-column summary, the duration with 0 standing for a
/// livestream, and the row's thumbnail or else the video's standard one.
pub fn video_to_track_info(v: &YtVideo, album: String) -> (t: TrackInfo)
    ensures
        t.uri matches Some(u) && u@ == youtube_prefix() + v.id@,
        t.id matches Some(i) && i@ == v.id@,
        t.name@ == trim(v.title@),
        channel_of(*v).len() == 0 ==> t.artists@.len() == 0,
        channel_of(*v).len() > 0 ==> views(t.artists@) == seq![channel_of(*v)],
        t.album == album,
        t.duration_ms == match v.duration_ms {
            Some(ms) => ms,
            None => 0,
        },
        t.album_id is None,
        t.artist_refs@.len() == 0,
        t.is_playable,
        !t.is_local,
        t.track_number == 0,
        !t.explicit,
        t.image_url matches Some(img) && img@ == match v.thumbnail {
            Some(th) => th@,
            None => "https://i.ytimg.com/vi/"@ + v.id@ + "/hqdefault.jpg"@,
        },
{
    let channel: String = match &v.channel {
        Some(c) => owned(trim_str(c.as_str())),
        None => match &v.uploader {
            Some(u) => owned(trim_str(u.as_str())),
            None => String::new(),
        },
    };
    let mut artists: Vec<String> = Vec::new();
    if channel.as_str().unicode_len() > 0 {
        artists.push(channel);
        assert(views(artists@) =~= seq![channel_of(*v)]);
    }
    let image: String = match &v.thumbnail {
        Some(th) => th.clone(),
        None => thumbnail_url_for_video_id(v.id.as_str()),
    };
    TrackInfo {
        uri: Some(uri_for_video_id(v.id.as_str())),
        name: owned(trim_str(v.title.as_str())),
        artists,
        album,
        duration_ms: match v.duration_ms {
            Some(ms) => ms,
            None => 0,
        },
        id: Some(v.id.clone()),
        album_id: None,
        artist_refs: Vec::new(),
        is_playable: true,
        is_local: false,
        track_number: 0,
        explicit: false,
        image_url: Some(image),
    }
}

} // verus!
