//! The parts of the user configuration that the rest of the library reads:
//! theme colors with their textual form, behavior scalars and key bindings.

use vstd::prelude::*;

use crate::tui::event::Key;
use crate::text::{char_is_whitespace, dec, digit_char, is_ws, join2, owned, str_eq, u64_to_string};


verus! {

/// A terminal color as the theme stores it.
#[derive(Clone, Copy, Debug, PartialEq, Eq, Structural)]
pub enum ThemeColor {
    Reset,
    Black,
    Red,
    Green,
    Yellow,
    Blue,
    Magenta,
    Cyan,
    Gray,
    DarkGray,
    LightRed,
    LightGreen,
    LightYellow,
    LightBlue,
    LightMagenta,
    LightCyan,
    White,
    Rgb(u8, u8, u8),
}

/// Why a number in an `"r, g, b"` color failed to parse (`u8::from_str`).
#[derive(Clone, Copy, Debug, PartialEq, Eq, Structural)]
pub enum IntErrorKind {
    Empty,
    InvalidDigit,
    PosOverflow,
}

/// Why a theme color string was rejected.
#[derive(Clone, Debug, PartialEq, Eq)]
pub enum ColorError {
    /// Neither a color name nor three comma-separated components.
    Unexpected(String),
    /// One of the three components is not a number in `0..=255`.
    Component(IntErrorKind),
}

/// The configuration name of a named color (`None` for `Rgb`).
pub open spec fn named_color_text(c: ThemeColor) -> Option<Seq<char>> {
    match c {
        ThemeColor::Reset => Some("Reset"@),
        ThemeColor::Black => Some("Black"@),
        ThemeColor::Red => Some("Red"@),
        ThemeColor::Green => Some("Green"@),
        ThemeColor::Yellow => Some("Yellow"@),
        ThemeColor::Blue => Some("Blue"@),
        ThemeColor::Magenta => Some("Magenta"@),
        ThemeColor::Cyan => Some("Cyan"@),
        ThemeColor::Gray => Some("Gray"@),
        ThemeColor::DarkGray => Some("DarkGray"@),
        ThemeColor::LightRed => Some("LightRed"@),
        ThemeColor::LightGreen => Some("LightGreen"@),
        ThemeColor::LightYellow => Some("LightYellow"@),
        ThemeColor::LightBlue => Some("LightBlue"@),
        ThemeColor::LightMagenta => Some("LightMagenta"@),
        ThemeColor::LightCyan => Some("LightCyan"@),
        ThemeColor::White => Some("White"@),
        ThemeColor::Rgb(_, _, _) => None,
    }
}

/// The named color whose configuration name is `s`, if any.
pub open spec fn color_named(s: Seq<char>) -> Option<ThemeColor> {
    if s == "Reset"@ {
        Some(ThemeColor::Reset)
    } else if s == "Black"@ {
        Some(ThemeColor::Black)
    } else if s == "Red"@ {
        Some(ThemeColor::Red)
    } else if s == "Green"@ {
        Some(ThemeColor::Green)
    } else if s == "Yellow"@ {
        Some(ThemeColor::Yellow)
    } else if s == "Blue"@ {
        Some(ThemeColor::Blue)
    } else if s == "Magenta"@ {
        Some(ThemeColor::Magenta)
    } else if s == "Cyan"@ {
        Some(ThemeColor::Cyan)
    } else if s == "Gray"@ {
        Some(ThemeColor::Gray)
    } else if s == "DarkGray"@ {
        Some(ThemeColor::DarkGray)
    } else if s == "LightRed"@ {
        Some(ThemeColor::LightRed)
    } else if s == "LightGreen"@ {
        Some(ThemeColor::LightGreen)
    } else if s == "LightYellow"@ {
        Some(ThemeColor::LightYellow)
    } else if s == "LightBlue"@ {
        Some(ThemeColor::LightBlue)
    } else if s == "LightMagenta"@ {
        Some(ThemeColor::LightMagenta)
    } else if s == "LightCyan"@ {
        Some(ThemeColor::LightCyan)
    } else if s == "White"@ {
        Some(ThemeColor::White)
    } else {
        None
    }
}

/// `s` with leading white space removed.
pub open spec fn trim_start(s: Seq<char>) -> Seq<char>
    decreases s.len(),
{
    if s.len() > 0 && is_ws(s[0]) {
        trim_start(s.drop_first())
    } else {
        s
    }
}

/// `s` with trailing white space removed.
pub open spec fn trim_end(s: Seq<char>) -> Seq<char>
    decreases s.len(),
{
    if s.len() > 0 && is_ws(s.last()) {
        trim_end(s.drop_last())
    } else {
        s
    }
}

/// `str::trim`.
pub open spec fn trim(s: Seq<char>) -> Seq<char> {
    trim_end(trim_start(s))
}

/// `str::split(',')`: the pieces between commas, in order.
pub open spec fn split_commas(s: Seq<char>) -> Seq<Seq<char>>
    decreases s.len(),
{
    if s.len() == 0 {
        seq![Seq::<char>::empty()]
    } else {
        let rest = split_commas(s.drop_last());
        if s.last() == ',' {
            rest.push(Seq::<char>::empty())
        } else {
            rest.update(rest.len() - 1, rest.last().push(s.last()))
        }
    }
}

pub open spec fn is_digit(c: char) -> bool {
    '0' <= c && c <= '9'
}

pub open spec fn digit_value(c: char) -> nat {
    (c as u32 - '0' as u32) as nat
}

/// Left-to-right decimal accumulation as `u8::from_str` performs it: the
/// first non-digit gives `InvalidDigit`, the first digit that takes the
/// running value past 255 gives `PosOverflow`.
pub open spec fn scan_u8(s: Seq<char>, acc: nat) -> Result<u8, IntErrorKind>
    decreases s.len(),
{
    if s.len() == 0 {
        Ok(acc as u8)
    } else if !is_digit(s[0]) {
        Err(IntErrorKind::InvalidDigit)
    } else if acc * 10 + digit_value(s[0]) > 255 {
        Err(IntErrorKind::PosOverflow)
    } else {
        scan_u8(s.drop_first(), acc * 10 + digit_value(s[0]))
    }
}

/// `s.parse::<u8>()`: an optional leading `+`, then decimal digits.
pub open spec fn parse_u8(s: Seq<char>) -> Result<u8, IntErrorKind> {
    if s.len() == 0 {
        Err(IntErrorKind::Empty)
    } else if s.len() == 1 && (s[0] == '+' || s[0] == '-') {
        Err(IntErrorKind::InvalidDigit)
    } else if s[0] == '+' {
        scan_u8(s.drop_first(), 0)
    } else {
        scan_u8(s, 0)
    }
}

/// The color a theme string denotes: a color name, or three comma-separated
/// (and individually trimmed) decimal components `r, g, b`. `Err(None)` when
/// the string has neither shape, `Err(Some(kind))` when a component fails.
pub open spec fn parse_color(s: Seq<char>) -> Result<ThemeColor, Option<IntErrorKind>> {
    match color_named(s) {
        Some(c) => Ok(c),
        None => {
            let parts = split_commas(s);
            if parts.len() != 3 {
                Err(None)
            } else {
                match parse_u8(trim(parts[0])) {
                    Err(e) => Err(Some(e)),
                    Ok(r) => match parse_u8(trim(parts[1])) {
                        Err(e) => Err(Some(e)),
                        Ok(g) => match parse_u8(trim(parts[2])) {
                            Err(e) => Err(Some(e)),
                            Ok(b) => Ok(ThemeColor::Rgb(r, g, b)),
                        },
                    },
                }
            }
        },
    }
}

/// The textual form of a color, as the configuration file writes it.
pub open spec fn color_text(c: ThemeColor) -> Seq<char> {
    match c {
        ThemeColor::Rgb(r, g, b) => dec(r as nat) + ", "@ + dec(g as nat) + ", "@ + dec(b as nat),
        _ => named_color_text(c).unwrap(),
    }
}

/// How `ColorError` relates to the spec-level failure.
pub open spec fn color_error_matches(e: ColorError, s: Seq<char>, fault: Option<IntErrorKind>) -> bool {
    match fault {
        None => e == ColorError::Unexpected(e->Unexpected_0) && e->Unexpected_0@ == s,
        Some(k) => e == ColorError::Component(k),
    }
}

/// `s.trim()`.
pub fn trim_str(s: &str) -> (r: &str)
    ensures
        r@ == trim(s@),
{
    let n: usize = s.unicode_len();
    let mut a: usize = 0;
    assert(s@.subrange(0, n as int) =~= s@);
    while a < n && char_is_whitespace(s.get_char(a))
        invariant
            n == s@.len(),
            a <= n,
            trim_start(s@) == trim_start(s@.subrange(a as int, n as int)),
        decreases n - a,
    {
        assert(s@.subrange(a as int, n as int).drop_first() =~= s@.subrange(a + 1, n as int));
        a = a + 1;
    }
    assert(trim_start(s@.subrange(a as int, n as int)) == s@.subrange(a as int, n as int));
    let mut b: usize = n;
    while b > a && char_is_whitespace(s.get_char(b - 1))
        invariant
            n == s@.len(),
            a <= b <= n,
            trim_start(s@) == s@.subrange(a as int, n as int),
            trim(s@) == trim_end(s@.subrange(a as int, b as int)),
        decreases b - a,
    {
        assert(s@.subrange(a as int, b as int).drop_last() =~= s@.subrange(a as int, b - 1));
        b = b - 1;
    }
    s.substring_char(a, b)
}

/// `s.split(',')`, each piece as an owned string.
pub fn split_commas_str(s: &str) -> (parts: Vec<String>)
    ensures
        parts@.map_values(|p: String| p@) == split_commas(s@),
{
    let n: usize = s.unicode_len();
    let mut parts: Vec<String> = Vec::new();
    let mut cur: String = String::new();
    let mut i: usize = 0;
    assert(s@.subrange(0, 0) =~= Seq::<char>::empty());
    assert(parts@.map_values(|p: String| p@).push(cur@) =~= split_commas(Seq::<char>::empty()));
    while i < n
        invariant
            n == s@.len(),
            i <= n,
            parts@.map_values(|p: String| p@).push(cur@) == split_commas(s@.subrange(0, i as int)),
        decreases n - i,
    {
        let c: char = s.get_char(i);
        let ghost prev = s@.subrange(0, i as int);
        let ghost next = s@.subrange(0, i + 1);
        assert(next.drop_last() =~= prev);
        assert(next.last() == c);
        if c == ',' {
            let done: String = cur;
            parts.push(done);
            cur = String::new();
            assert(parts@.map_values(|p: String| p@).push(cur@) =~= split_commas(prev).push(
                Seq::<char>::empty(),
            ));
        } else {
            let ghost before = cur@;
            cur.push(c);
            assert(parts@.map_values(|p: String| p@).push(cur@) =~= split_commas(prev).update(
                split_commas(prev).len() - 1,
                split_commas(prev).last().push(c),
            ));
        }
        i = i + 1;
    }
    assert(s@.subrange(0, n as int) =~= s@);
    let ghost pre = parts@.map_values(|p: String| p@);
    parts.push(cur);
    assert(parts@.map_values(|p: String| p@) =~= pre.push(cur@));
    parts
}

fn scan_u8_from(s: &str, start: usize) -> (r: Result<u8, IntErrorKind>)
    requires
        start <= s@.len(),
    ensures
        r == scan_u8(s@.subrange(start as int, s@.len() as int), 0),
{
    let n: usize = s.unicode_len();
    let mut acc: u32 = 0;
    let mut i: usize = start;
    while i < n
        invariant
            n == s@.len(),
            start <= i <= n,
            acc <= 255,
            scan_u8(s@.subrange(start as int, n as int), 0) == scan_u8(
                s@.subrange(i as int, n as int),
                acc as nat,
            ),
        decreases n - i,
    {
        let c: char = s.get_char(i);
        let ghost rest = s@.subrange(i as int, n as int);
        assert(rest[0] == c);
        assert(rest.drop_first() =~= s@.subrange(i + 1, n as int));
        if !('0' <= c && c <= '9') {
            return Err(IntErrorKind::InvalidDigit);
        }
        let d: u32 = (c as u32) - ('0' as u32);
        let next: u32 = acc * 10 + d;
        if next > 255 {
            return Err(IntErrorKind::PosOverflow);
        }
        acc = next;
        i = i + 1;
    }
    assert(s@.subrange(n as int, n as int) =~= Seq::<char>::empty());
    Ok(acc as u8)
}

/// `s.parse::<u8>()`.
pub fn parse_u8_str(s: &str) -> (r: Result<u8, IntErrorKind>)
    ensures
        r == parse_u8(s@),
{
    let n: usize = s.unicode_len();
    if n == 0 {
        return Err(IntErrorKind::Empty);
    }
    let first: char = s.get_char(0);
    if n == 1 && (first == '+' || first == '-') {
        return Err(IntErrorKind::InvalidDigit);
    }
    if first == '+' {
        assert(s@.subrange(1, n as int) =~= s@.drop_first());
        scan_u8_from(s, 1)
    } else {
        assert(s@.subrange(0, n as int) =~= s@);
        scan_u8_from(s, 0)
    }
}

fn color_named_str(s: &str) -> (r: Option<ThemeColor>)
    ensures
        r == color_named(s@),
{
    if str_eq(s, "Reset") {
        Some(ThemeColor::Reset)
    } else if str_eq(s, "Black") {
        Some(ThemeColor::Black)
    } else if str_eq(s, "Red") {
        Some(ThemeColor::Red)
    } else if str_eq(s, "Green") {
        Some(ThemeColor::Green)
    } else if str_eq(s, "Yellow") {
        Some(ThemeColor::Yellow)
    } else if str_eq(s, "Blue") {
        Some(ThemeColor::Blue)
    } else if str_eq(s, "Magenta") {
        Some(ThemeColor::Magenta)
    } else if str_eq(s, "Cyan") {
        Some(ThemeColor::Cyan)
    } else if str_eq(s, "Gray") {
        Some(ThemeColor::Gray)
    } else if str_eq(s, "DarkGray") {
        Some(ThemeColor::DarkGray)
    } else if str_eq(s, "LightRed") {
        Some(ThemeColor::LightRed)
    } else if str_eq(s, "LightGreen") {
        Some(ThemeColor::LightGreen)
    } else if str_eq(s, "LightYellow") {
        Some(ThemeColor::LightYellow)
    } else if str_eq(s, "LightBlue") {
        Some(ThemeColor::LightBlue)
    } else if str_eq(s, "LightMagenta") {
        Some(ThemeColor::LightMagenta)
    } else if str_eq(s, "LightCyan") {
        Some(ThemeColor::LightCyan)
    } else if str_eq(s, "White") {
        Some(ThemeColor::White)
    } else {
        None
    }
}

/// Parse a theme color: a color name (`"Magenta"`) or `"r, g, b"`.
pub fn parse_theme_item(theme_item: &str) -> (r: Result<ThemeColor, ColorError>)
    ensures
        match parse_color(theme_item@) {
            Ok(c) => r == Ok::<ThemeColor, ColorError>(c),
            Err(fault) => r is Err && color_error_matches(r->Err_0, theme_item@, fault),
        },
{
    if let Some(c) = color_named_str(theme_item) {
        return Ok(c);
    }
    let parts: Vec<String> = split_commas_str(theme_item);
    proof {
        assert(parts@.map_values(|p: String| p@).len() == parts@.len());
    }
    if parts.len() != 3 {
        return Err(ColorError::Unexpected(owned(theme_item)));
    }
    proof {
        assert(parts@.map_values(|p: String| p@)[0] == parts@[0]@);
        assert(parts@.map_values(|p: String| p@)[1] == parts@[1]@);
        assert(parts@.map_values(|p: String| p@)[2] == parts@[2]@);
    }
    let r: u8 = match parse_u8_str(trim_str(parts[0].as_str())) {
        Ok(v) => v,
        Err(e) => return Err(ColorError::Component(e)),
    };
    let g: u8 = match parse_u8_str(trim_str(parts[1].as_str())) {
        Ok(v) => v,
        Err(e) => return Err(ColorError::Component(e)),
    };
    let b: u8 = match parse_u8_str(trim_str(parts[2].as_str())) {
        Ok(v) => v,
        Err(e) => return Err(ColorError::Component(e)),
    };
    Ok(ThemeColor::Rgb(r, g, b))
}

/// The configuration-file form of a color: its name, or `"r, g, b"`.
pub fn color_to_string(c: ThemeColor) -> (s: String)
    ensures
        s@ == color_text(c),
{
    match c {
        ThemeColor::Reset => owned("Reset"),
        ThemeColor::Black => owned("Black"),
        ThemeColor::Red => owned("Red"),
        ThemeColor::Green => owned("Green"),
        ThemeColor::Yellow => owned("Yellow"),
        ThemeColor::Blue => owned("Blue"),
        ThemeColor::Magenta => owned("Magenta"),
        ThemeColor::Cyan => owned("Cyan"),
        ThemeColor::Gray => owned("Gray"),
        ThemeColor::DarkGray => owned("DarkGray"),
        ThemeColor::LightRed => owned("LightRed"),
        ThemeColor::LightGreen => owned("LightGreen"),
        ThemeColor::LightYellow => owned("LightYellow"),
        ThemeColor::LightBlue => owned("LightBlue"),
        ThemeColor::LightMagenta => owned("LightMagenta"),
        ThemeColor::LightCyan => owned("LightCyan"),
        ThemeColor::White => owned("White"),
        ThemeColor::Rgb(r, g, b) => {
            let mut s: String = u64_to_string(r as u64);
            s.append(", ");
            let gs: String = u64_to_string(g as u64);
            s.append(gs.as_str());
            s.append(", ");
            let bs: String = u64_to_string(b as u64);
            s.append(bs.as_str());
            s
        },
    }
}

impl ColorError {
    /// Human-readable reason, as shown to the user.
    pub fn message(&self) -> (m: String)
        ensures
            match self {
                ColorError::Unexpected(item) => m@ == "Unexpected color "@ + item@,
                ColorError::Component(k) => m@ == int_error_text(*k),
            },
    {
        match self {
            ColorError::Unexpected(item) => join2("Unexpected color ", item.as_str()),
            ColorError::Component(IntErrorKind::Empty) => owned(
                "cannot parse integer from empty string",
            ),
            ColorError::Component(IntErrorKind::InvalidDigit) => owned(
                "invalid digit found in string",
            ),
            ColorError::Component(IntErrorKind::PosOverflow) => owned(
                "number too large to fit in target type",
            ),
        }
    }
}

/// `ParseIntError`'s message for each kind.
pub open spec fn int_error_text(k: IntErrorKind) -> Seq<char> {
    match k {
        IntErrorKind::Empty => "cannot parse integer from empty string"@,
        IntErrorKind::InvalidDigit => "invalid digit found in string"@,
        IntErrorKind::PosOverflow => "number too large to fit in target type"@,
    }
}

} // verus!

verus! {

/// A media source the client can play from.
#[derive(Clone, Copy, Debug, PartialEq, Eq, Structural)]
pub enum Source {
    Spotify,
    Local,
    Subsonic,
    YouTube,
    Radio,
}

/// Every source, in the order the source picker lists them.
pub open spec fn all_sources() -> Seq<Source> {
    seq![Source::Spotify, Source::Local, Source::Subsonic, Source::YouTube, Source::Radio]
}

/// The lowercased name of a source (its `Debug` name, lowercased).
pub open spec fn source_text(s: Source) -> Seq<char> {
    match s {
        Source::Spotify => "spotify"@,
        Source::Local => "local"@,
        Source::Subsonic => "subsonic"@,
        Source::YouTube => "youtube"@,
        Source::Radio => "radio"@,
    }
}

impl Source {
    /// Lowercased name of the source, e.g. `"spotify"`.
    pub fn lowercase_name(&self) -> (s: String)
        ensures
            s@ == source_text(*self),
    {
        match self {
            Source::Spotify => owned("spotify"),
            Source::Local => owned("local"),
            Source::Subsonic => owned("subsonic"),
            Source::YouTube => owned("youtube"),
            Source::Radio => owned("radio"),
        }
    }

    /// Position of the source in the picker list.
    pub fn picker_index(&self) -> (i: usize)
        ensures
            i < all_sources().len(),
            all_sources()[i as int] == *self,
    {
        match self {
            Source::Spotify => 0,
            Source::Local => 1,
            Source::Subsonic => 2,
            Source::YouTube => 3,
            Source::Radio => 4,
        }
    }
}

/// The theme's colors, one per themable element.
#[derive(Clone, Copy, Debug, PartialEq, Eq, Structural)]
pub struct Theme {
    pub active: ThemeColor,
    pub analysis_bar: ThemeColor,
    pub analysis_bar_text: ThemeColor,
    pub banner: ThemeColor,
    pub background: ThemeColor,
    pub error_border: ThemeColor,
    pub error_text: ThemeColor,
    pub header: ThemeColor,
    pub highlighted_lyrics: ThemeColor,
    pub hint: ThemeColor,
    pub hovered: ThemeColor,
    pub inactive: ThemeColor,
    pub playbar_background: ThemeColor,
    pub playbar_progress: ThemeColor,
    pub playbar_progress_text: ThemeColor,
    pub playbar_text: ThemeColor,
    pub selected: ThemeColor,
    pub text: ThemeColor,
}

impl Theme {
    /// The stock theme.
    pub fn standard() -> (t: Theme)
        ensures
            t == stock_theme(),
    {
        Theme {
            active: ThemeColor::Cyan,
            analysis_bar: ThemeColor::LightCyan,
            analysis_bar_text: ThemeColor::Reset,
            banner: ThemeColor::LightCyan,
            background: ThemeColor::Reset,
            error_border: ThemeColor::Red,
            error_text: ThemeColor::LightRed,
            header: ThemeColor::Reset,
            highlighted_lyrics: ThemeColor::LightCyan,
            hint: ThemeColor::Yellow,
            hovered: ThemeColor::Magenta,
            inactive: ThemeColor::Gray,
            playbar_background: ThemeColor::Black,
            playbar_progress: ThemeColor::LightCyan,
            playbar_progress_text: ThemeColor::Cyan,
            playbar_text: ThemeColor::Reset,
            selected: ThemeColor::LightCyan,
            text: ThemeColor::Reset,
        }
    }
}

/// The stock theme: cyan accents on the terminal's own colors, red errors,
/// a yellow hint, a magenta hover and a black playbar.
pub open spec fn stock_theme() -> Theme {
    Theme {
        active: ThemeColor::Cyan,
        analysis_bar: ThemeColor::LightCyan,
        analysis_bar_text: ThemeColor::Reset,
        banner: ThemeColor::LightCyan,
        background: ThemeColor::Reset,
        error_border: ThemeColor::Red,
        error_text: ThemeColor::LightRed,
        header: ThemeColor::Reset,
        highlighted_lyrics: ThemeColor::LightCyan,
        hint: ThemeColor::Yellow,
        hovered: ThemeColor::Magenta,
        inactive: ThemeColor::Gray,
        playbar_background: ThemeColor::Black,
        playbar_progress: ThemeColor::LightCyan,
        playbar_progress_text: ThemeColor::Cyan,
        playbar_text: ThemeColor::Reset,
        selected: ThemeColor::LightCyan,
        text: ThemeColor::Reset,
    }
}

/// Behavior settings of the user configuration.
#[derive(Clone, Debug, PartialEq, Eq)]
pub struct BehaviorConfig {
    pub seek_milliseconds: u32,
    pub volume_increment: u8,
    pub tick_rate_milliseconds: u64,
    pub animation_tick_rate_milliseconds: u64,
    pub enable_text_emphasis: bool,
    pub show_loading_indicator: bool,
    pub enforce_wide_search_bar: bool,
    pub liked_icon: String,
    pub shuffle_icon: String,
    pub repeat_track_icon: String,
    pub repeat_context_icon: String,
    pub playing_icon: String,
    pub paused_icon: String,
    pub set_window_title: bool,
    pub shuffle_enabled: bool,
    pub stop_after_current_track: bool,
    pub sidebar_width_percent: u8,
    pub playbar_height_rows: u16,
    pub library_height_percent: u8,
    pub active_source: Source,
    pub enable_monthly_recap_prompt: bool,
}

/// Configurable key bindings that the handlers consult.
#[derive(Clone, Copy, Debug, PartialEq, Eq, Structural)]
pub struct KeyBindings {
    pub left: Key,
    pub right: Key,
    pub up: Key,
    pub down: Key,
    pub next_page: Key,
    pub previous_page: Key,
    pub generate_recap: Key,
}

/// The stock key bindings: vim-style movement, Ctrl-d/Ctrl-u paging and
/// `R` for a recap.
pub open spec fn stock_key_bindings() -> KeyBindings {
    KeyBindings {
        left: Key::Char('h'),
        right: Key::Char('l'),
        up: Key::Char('k'),
        down: Key::Char('j'),
        next_page: Key::Ctrl('d'),
        previous_page: Key::Ctrl('u'),
        generate_recap: Key::Char('R'),
    }
}

/// `b` holds the stock behavior settings.
pub open spec fn stock_behavior(b: BehaviorConfig) -> bool {
    &&& b.seek_milliseconds == 5000
    &&& b.volume_increment == 10
    &&& b.tick_rate_milliseconds == 250
    &&& b.animation_tick_rate_milliseconds == 16
    &&& b.enable_text_emphasis
    &&& b.show_loading_indicator
    &&& !b.enforce_wide_search_bar
    &&& b.liked_icon@ == "♥"@
    &&& b.shuffle_icon@ == "🔀"@
    &&& b.repeat_track_icon@ == "🔂"@
    &&& b.repeat_context_icon@ == "🔁"@
    &&& b.playing_icon@ == "▶"@
    &&& b.paused_icon@ == "⏸"@
    &&& b.set_window_title
    &&& !b.shuffle_enabled
    &&& !b.stop_after_current_track
    &&& b.sidebar_width_percent == 20
    &&& b.playbar_height_rows == 6
    &&& b.library_height_percent == 30
    &&& b.active_source == Source::Spotify
    &&& b.enable_monthly_recap_prompt
}

/// The user configuration.
#[derive(Clone, Debug, PartialEq, Eq)]
pub struct UserConfig {
    pub theme: Theme,
    pub behavior: BehaviorConfig,
    pub keys: KeyBindings,
}

impl UserConfig {
    /// The configuration used before any file is loaded.
    pub fn new() -> (c: UserConfig)
        ensures
            c.theme == stock_theme(),
            c.keys == stock_key_bindings(),
            stock_behavior(c.behavior),
    {
        UserConfig {
            theme: Theme::standard(),
            behavior: BehaviorConfig {
                seek_milliseconds: 5000,
                volume_increment: 10,
                tick_rate_milliseconds: 250,
                animation_tick_rate_milliseconds: 16,
                enable_text_emphasis: true,
                show_loading_indicator: true,
                enforce_wide_search_bar: false,
                liked_icon: owned("♥"),
                shuffle_icon: owned("🔀"),
                repeat_track_icon: owned("🔂"),
                repeat_context_icon: owned("🔁"),
                playing_icon: owned("▶"),
                paused_icon: owned("⏸"),
                set_window_title: true,
                shuffle_enabled: false,
                stop_after_current_track: false,
                sidebar_width_percent: 20,
                playbar_height_rows: 6,
                library_height_percent: 30,
                active_source: Source::Spotify,
                enable_monthly_recap_prompt: true,
            },
            keys: KeyBindings {
                left: Key::Char('h'),
                right: Key::Char('l'),
                up: Key::Char('k'),
                down: Key::Char('j'),
                next_page: Key::Ctrl('d'),
                previous_page: Key::Ctrl('u'),
                generate_recap: Key::Char('R'),
            },
        }
    }
}

} // verus!

verus! {

/// The message of the error a failed color parse reports.
pub open spec fn color_fault_text(s: Seq<char>, fault: Option<IntErrorKind>) -> Seq<char> {
    match fault {
        None => "Unexpected color "@ + s,
        Some(k) => int_error_text(k),
    }
}

/// The theme elements a plugin may recolor.
pub open spec fn theme_field_names() -> Seq<Seq<char>> {
    seq![
        "active"@,
        "banner"@,
        "error_border"@,
        "error_text"@,
        "hint"@,
        "hovered"@,
        "inactive"@,
        "playbar_background"@,
        "playbar_progress"@,
        "playbar_progress_text"@,
        "playbar_text"@,
        "selected"@,
        "text"@,
        "background"@,
        "header"@,
        "highlighted_lyrics"@,
        "analysis_bar"@,
        "analysis_bar_text"@,
    ]
}

/// `theme` with the element named `field` set to `color` (unchanged for an
/// unknown name).
pub open spec fn with_theme_field(theme: Theme, field: Seq<char>, color: ThemeColor) -> Theme {
    if field == "active"@ {
        Theme { active: color, ..theme }
    } else if field == "banner"@ {
        Theme { banner: color, ..theme }
    } else if field == "error_border"@ {
        Theme { error_border: color, ..theme }
    } else if field == "error_text"@ {
        Theme { error_text: color, ..theme }
    } else if field == "hint"@ {
        Theme { hint: color, ..theme }
    } else if field == "hovered"@ {
        Theme { hovered: color, ..theme }
    } else if field == "inactive"@ {
        Theme { inactive: color, ..theme }
    } else if field == "playbar_background"@ {
        Theme { playbar_background: color, ..theme }
    } else if field == "playbar_progress"@ {
        Theme { playbar_progress: color, ..theme }
    } else if field == "playbar_progress_text"@ {
        Theme { playbar_progress_text: color, ..theme }
    } else if field == "playbar_text"@ {
        Theme { playbar_text: color, ..theme }
    } else if field == "selected"@ {
        Theme { selected: color, ..theme }
    } else if field == "text"@ {
        Theme { text: color, ..theme }
    } else if field == "background"@ {
        Theme { background: color, ..theme }
    } else if field == "header"@ {
        Theme { header: color, ..theme }
    } else if field == "highlighted_lyrics"@ {
        Theme { highlighted_lyrics: color, ..theme }
    } else if field == "analysis_bar"@ {
        Theme { analysis_bar: color, ..theme }
    } else if field == "analysis_bar_text"@ {
        Theme { analysis_bar_text: color, ..theme }
    } else {
        theme
    }
}

impl Theme {
    /// Set the element named `field` to `color`; unknown names change nothing.
    pub fn set_field(&mut self, field: &str, color: ThemeColor)
        ensures
            *final(self) == with_theme_field(*old(self), field@, color),
    {
        if str_eq(field, "active") {
            self.active = color;
        } else if str_eq(field, "banner") {
            self.banner = color;
        } else if str_eq(field, "error_border") {
            self.error_border = color;
        } else if str_eq(field, "error_text") {
            self.error_text = color;
        } else if str_eq(field, "hint") {
            self.hint = color;
        } else if str_eq(field, "hovered") {
            self.hovered = color;
        } else if str_eq(field, "inactive") {
            self.inactive = color;
        } else if str_eq(field, "playbar_background") {
            self.playbar_background = color;
        } else if str_eq(field, "playbar_progress") {
            self.playbar_progress = color;
        } else if str_eq(field, "playbar_progress_text") {
            self.playbar_progress_text = color;
        } else if str_eq(field, "playbar_text") {
            self.playbar_text = color;
        } else if str_eq(field, "selected") {
            self.selected = color;
        } else if str_eq(field, "text") {
            self.text = color;
        } else if str_eq(field, "background") {
            self.background = color;
        } else if str_eq(field, "header") {
            self.header = color;
        } else if str_eq(field, "highlighted_lyrics") {
            self.highlighted_lyrics = color;
        } else if str_eq(field, "analysis_bar") {
            self.analysis_bar = color;
        } else if str_eq(field, "analysis_bar_text") {
            self.analysis_bar_text = color;
        }
    }
}

/// Whether `field` names a theme element a plugin may recolor.
pub fn is_theme_field(field: &str) -> (b: bool)
    ensures
        b == theme_field_names().contains(field@),
{
    let names: [&str; 18] = [
        "active",
        "banner",
        "error_border",
        "error_text",
        "hint",
        "hovered",
        "inactive",
        "playbar_background",
        "playbar_progress",
        "playbar_progress_text",
        "playbar_text",
        "selected",
        "text",
        "background",
        "header",
        "highlighted_lyrics",
        "analysis_bar",
        "analysis_bar_text",
    ];
    assert(names@.map_values(|s: &str| s@) =~= theme_field_names());
    let mut i: usize = 0;
    while i < 18
        invariant
            names@.map_values(|s: &str| s@) == theme_field_names(),
            i <= 18,
            forall|j: int| 0 <= j < i ==> theme_field_names()[j] != field@,
        decreases 18 - i,
    {
        if str_eq(names[i], field) {
            assert(theme_field_names()[i as int] == field@);
            return true;
        }
        i = i + 1;
    }
    false
}

} // verus!

verus! {

proof fn lemma_digit_char(d: nat)
    requires
        d < 10,
    ensures
        is_digit(digit_char(d)),
        digit_value(digit_char(d)) == d,
        !is_ws(digit_char(d)),
        digit_char(d) != ',',
{
    assert((48 + d) as u32 == 48 + d);
    assert(digit_char(d) as u32 == 48 + d);
}

/// The decimal form of a number is a non-empty run of digits.
proof fn lemma_dec_digits(n: nat)
    ensures
        dec(n).len() >= 1,
        forall|i: int| 0 <= i < dec(n).len() ==> is_digit(#[trigger] dec(n)[i]) && !is_ws(dec(n)[i])
            && dec(n)[i] != ',',
    decreases n,
{
    if n < 10 {
        lemma_digit_char(n);
    } else {
        lemma_dec_digits(n / 10);
        lemma_digit_char(n % 10);
        assert forall|i: int| 0 <= i < dec(n).len() implies is_digit(#[trigger] dec(n)[i])
            && !is_ws(dec(n)[i]) && dec(n)[i] != ',' by {
            if i < dec(n / 10).len() {
                assert(dec(n)[i] == dec(n / 10)[i]);
            }
        }
    }
}

/// A byte written in decimal reads back as the same byte.
proof fn lemma_parse_u8_dec(n: u8)
    ensures
        parse_u8(dec(n as nat)) == Ok::<u8, IntErrorKind>(n),
{
    lemma_dec_digits(n as nat);
    let d = dec(n as nat);
    if n < 10 {
        lemma_digit_char(n as nat);
        assert(d == seq![digit_char(n as nat)]);
        assert(d.drop_first().len() == 0);
        assert(scan_u8(d.drop_first(), n as nat) == Ok::<u8, IntErrorKind>(n));
    } else if n < 100 {
        let a = (n / 10) as nat;
        let b = (n % 10) as nat;
        lemma_digit_char(a);
        lemma_digit_char(b);
        assert(dec(a) == seq![digit_char(a)]);
        assert(d =~= seq![digit_char(a), digit_char(b)]);
        let rest = d.drop_first();
        assert(rest =~= seq![digit_char(b)]);
        assert(rest.drop_first().len() == 0);
        assert(scan_u8(rest.drop_first(), a * 10 + b) == Ok::<u8, IntErrorKind>(n));
        assert(scan_u8(rest, a) == Ok::<u8, IntErrorKind>(n));
    } else {
        let a = (n / 100) as nat;
        let b = ((n / 10) % 10) as nat;
        let c = (n % 10) as nat;
        lemma_digit_char(a);
        lemma_digit_char(b);
        lemma_digit_char(c);
        assert(dec(a) == seq![digit_char(a)]);
        assert(dec((n / 10) as nat) =~= seq![digit_char(a), digit_char(b)]);
        assert(d =~= seq![digit_char(a), digit_char(b), digit_char(c)]);
        let r1 = d.drop_first();
        let r2 = r1.drop_first();
        assert(r1 =~= seq![digit_char(b), digit_char(c)]);
        assert(r2 =~= seq![digit_char(c)]);
        assert(r2.drop_first().len() == 0);
        assert((a * 10 + b) * 10 + c == n);
        assert(scan_u8(r2.drop_first(), (a * 10 + b) * 10 + c) == Ok::<u8, IntErrorKind>(n));
        assert(scan_u8(r2, a * 10 + b) == Ok::<u8, IntErrorKind>(n));
        assert(scan_u8(r1, a) == Ok::<u8, IntErrorKind>(n));
    }
}

proof fn lemma_split_commas_nonempty(s: Seq<char>)
    ensures
        split_commas(s).len() >= 1,
    decreases s.len(),
{
    if s.len() > 0 {
        lemma_split_commas_nonempty(s.drop_last());
    }
}

/// Text without commas is a single piece.
proof fn lemma_split_commas_none(s: Seq<char>)
    requires
        forall|i: int| 0 <= i < s.len() ==> s[i] != ',',
    ensures
        split_commas(s) == seq![s],
    decreases s.len(),
{
    if s.len() > 0 {
        lemma_split_commas_none(s.drop_last());
        assert(s.drop_last().push(s.last()) =~= s);
        assert(split_commas(s) =~= seq![s]);
    } else {
        assert(s =~= Seq::<char>::empty());
    }
}

/// Splitting around a comma splits each side.
proof fn lemma_split_commas_concat(a: Seq<char>, b: Seq<char>)
    ensures
        split_commas(a + seq![','] + b) == split_commas(a) + split_commas(b),
    decreases b.len(),
{
    lemma_split_commas_nonempty(a);
    if b.len() == 0 {
        assert(a + seq![','] + b =~= (a + seq![',']));
        assert((a + seq![',']).drop_last() =~= a);
        assert(split_commas(b) =~= seq![Seq::<char>::empty()]);
        assert(split_commas(a + seq![',']) =~= split_commas(a) + split_commas(b));
    } else {
        let b2 = b.drop_last();
        lemma_split_commas_concat(a, b2);
        lemma_split_commas_nonempty(b2);
        let s = a + seq![','] + b;
        assert(s.drop_last() =~= a + seq![','] + b2);
        assert(s.last() == b.last());
        let left = split_commas(a);
        let r2 = split_commas(b2);
        if b.last() == ',' {
            assert(split_commas(s) =~= (left + r2).push(Seq::<char>::empty()));
            assert(split_commas(b) =~= r2.push(Seq::<char>::empty()));
            assert(split_commas(s) =~= left + split_commas(b));
        } else {
            let whole = left + r2;
            assert(whole.last() == r2.last());
            assert(split_commas(s) =~= whole.update(whole.len() - 1, r2.last().push(b.last())));
            assert(split_commas(b) =~= r2.update(r2.len() - 1, r2.last().push(b.last())));
            assert(split_commas(s) =~= left + split_commas(b));
        }
    }
}

proof fn lemma_trim_digits(d: Seq<char>)
    requires
        d.len() >= 1,
        forall|i: int| 0 <= i < d.len() ==> !is_ws(#[trigger] d[i]),
    ensures
        trim(d) == d,
        trim(seq![' '] + d) == d,
{
    assert(trim_start(d) == d);
    assert(trim_end(d) == d);
    let sd = seq![' '] + d;
    assert(is_ws(' '));
    assert(sd.drop_first() =~= d);
    assert(trim_start(sd) == trim_start(d));
}

/// A color written out as the configuration writes it (a color name, or
/// `r, g, b`) reads back as the same color.
pub proof fn lemma_color_text_round_trip(c: ThemeColor)
    ensures
        parse_color(color_text(c)) == Ok::<ThemeColor, Option<IntErrorKind>>(c),
{
    reveal_strlit("Reset");
    reveal_strlit("Black");
    reveal_strlit("Red");
    reveal_strlit("Green");
    reveal_strlit("Yellow");
    reveal_strlit("Blue");
    reveal_strlit("Magenta");
    reveal_strlit("Cyan");
    reveal_strlit("Gray");
    reveal_strlit("DarkGray");
    reveal_strlit("LightRed");
    reveal_strlit("LightGreen");
    reveal_strlit("LightYellow");
    reveal_strlit("LightBlue");
    reveal_strlit("LightMagenta");
    reveal_strlit("LightCyan");
    reveal_strlit("White");
    match c {
        ThemeColor::Rgb(r, g, b) => {
            reveal_strlit(", ");
            let dr = dec(r as nat);
            let dg = dec(g as nat);
            let db = dec(b as nat);
            lemma_dec_digits(r as nat);
            lemma_dec_digits(g as nat);
            lemma_dec_digits(b as nat);
            let s = color_text(c);
            assert(s =~= dr + seq![','] + (seq![' '] + dg + seq![','] + (seq![' '] + db)));
            assert(s[0] == dr[0]);
            assert(is_digit(s[0]));
            assert(color_named(s) is None);
            let p2 = seq![' '] + dg;
            let p3 = seq![' '] + db;
            assert forall|i: int| 0 <= i < p2.len() implies p2[i] != ',' by {
                if i > 0 {
                    assert(p2[i] == dg[i - 1]);
                }
            }
            assert forall|i: int| 0 <= i < p3.len() implies p3[i] != ',' by {
                if i > 0 {
                    assert(p3[i] == db[i - 1]);
                }
            }
            assert forall|i: int| 0 <= i < dr.len() implies dr[i] != ',' by {
                assert(dr[i] != ',');
            }
            lemma_split_commas_none(dr);
            lemma_split_commas_none(p2);
            lemma_split_commas_none(p3);
            lemma_split_commas_concat(p2, p3);
            assert(p2 + seq![','] + p3 =~= seq![' '] + dg + seq![','] + (seq![' '] + db));
            lemma_split_commas_concat(dr, p2 + seq![','] + p3);
            assert(split_commas(s) =~= seq![dr, p2, p3]);
            assert forall|i: int| 0 <= i < dg.len() implies !is_ws(#[trigger] dg[i]) by {
                assert(!is_ws(dg[i]));
            }
            assert forall|i: int| 0 <= i < db.len() implies !is_ws(#[trigger] db[i]) by {
                assert(!is_ws(db[i]));
            }
            assert forall|i: int| 0 <= i < dr.len() implies !is_ws(#[trigger] dr[i]) by {
                assert(!is_ws(dr[i]));
            }
            lemma_trim_digits(dr);
            lemma_trim_digits(dg);
            lemma_trim_digits(db);
            lemma_parse_u8_dec(r);
            lemma_parse_u8_dec(g);
            lemma_parse_u8_dec(b);
        },
        _ => {},
    }
}

} // verus!
