//! What the plugin-screen and stats views show, independent of how the
//! terminal draws it.

use vstd::prelude::*;

use crate::domain::plugin_api::{PluginScreenContent, PluginWidget};
use crate::infra::history::RecapPeriod;
use crate::text::{dec, join2, join3, owned, str_eq, u64_to_string};

verus! {

/// The content published for screen `name`, if any.
pub open spec fn published(screens: Seq<(String, PluginScreenContent)>, name: Seq<char>) -> Option<
    PluginScreenContent,
>
    decreases screens.len(),
{
    if screens.len() == 0 {
        None
    } else if screens[0].0@ == name {
        Some(screens[0].1)
    } else {
        published(screens.drop_first(), name)
    }
}

/// The content published for screen `name`, if any.
pub fn published_content<'a>(screens: &'a Vec<(String, PluginScreenContent)>, name: &str) -> (r:
    Option<&'a PluginScreenContent>)
    ensures
        r == match published(screens@, name@) {
            Some(c) => Some(&c),
            None => None::<&PluginScreenContent>,
        },
{
    let mut i: usize = 0;
    assert(screens@.subrange(0, screens@.len() as int) =~= screens@);
    while i < screens.len()
        invariant
            i <= screens@.len(),
            published(screens@, name@) == published(screens@.subrange(i as int, screens@.len() as int), name@),
        decreases screens@.len() - i,
    {
        proof {
            let rest = screens@.subrange(i as int, screens@.len() as int);
            assert(rest.drop_first() =~= screens@.subrange(i + 1, screens@.len() as int));
            assert(rest[0] == screens@[i as int]);
        }
        if str_eq(screens[i].0.as_str(), name) {
            return Some(&screens[i].1);
        }
        i = i + 1;
    }
    proof {
        assert(screens@.subrange(i as int, screens@.len() as int).len() == 0);
    }
    None
}

/// The title of a plugin screen: the published title when it is not empty,
/// otherwise the screen's name.
pub fn screen_title(screens: &Vec<(String, PluginScreenContent)>, name: &str) -> (t: String)
    ensures
        t@ == match published(screens@, name@) {
            Some(c) => if c.title@.len() > 0 {
                c.title@
            } else {
                name@
            },
            None => name@,
        },
{
    match published_content(screens, name) {
        Some(c) => if c.title.as_str().unicode_len() > 0 {
            c.title.clone()
        } else {
            owned(name)
        },
        None => owned(name),
    }
}

/// What an empty plugin screen shows.
pub fn no_content_text(name: &str) -> (t: String)
    ensures
        t@ == "plugin screen '"@ + name@ + "' has no content yet"@,
{
    join3("plugin screen '", name, "' has no content yet")
}

/// The rows a widget takes: paragraphs and lists their requested height
/// when they have one, gauges three; `None` means the widget shares the
/// remaining rows evenly with the other such widgets.
pub open spec fn rows_of(w: PluginWidget) -> Option<u16> {
    match w {
        PluginWidget::Paragraph { height, .. } => height,
        PluginWidget::List { height, .. } => height,
        PluginWidget::Gauge { .. } => Some(3),
    }
}

/// The rows a widget takes (see [`rows_of`]).
pub fn widget_rows(w: &PluginWidget) -> (r: Option<u16>)
    ensures
        r == rows_of(*w),
{
    match w {
        PluginWidget::Paragraph { height, .. } => *height,
        PluginWidget::List { height, .. } => *height,
        PluginWidget::Gauge { .. } => Some(3),
    }
}

/// The highlighted row of a list of `len` items: the selection when it
/// points into the list.
pub fn visible_selection(selected: Option<usize>, len: usize) -> (r: Option<usize>)
    ensures
        r == match selected {
            Some(s) => if s < len {
                Some(s)
            } else {
                None
            },
            None => None::<usize>,
        },
{
    match selected {
        Some(s) => if s < len {
            Some(s)
        } else {
            None
        },
        None => None,
    }
}

/// The highlighted row of a ranked list of `len` entries: the selected row,
/// or the last row when the selection is past the end; none for an empty
/// list.
pub fn ranked_selection(index: usize, len: usize) -> (r: Option<usize>)
    ensures
        len == 0 ==> r is None,
        len > 0 ==> r == Some(if index < len - 1 {
            index
        } else {
            (len - 1) as usize
        }),
{
    if len == 0 {
        None
    } else if index < len - 1 {
        Some(index)
    } else {
        Some(len - 1)
    }
}

/// The position of a period among the stats tabs (week, month, year, all
/// time).
pub fn period_tab_index(p: RecapPeriod) -> (i: usize)
    ensures
        i == match p {
            RecapPeriod::Week => 0usize,
            RecapPeriod::Month => 1,
            RecapPeriod::Year => 2,
            RecapPeriod::AllTime => 3,
        },
{
    match p {
        RecapPeriod::Week => 0,
        RecapPeriod::Month => 1,
        RecapPeriod::Year => 2,
        RecapPeriod::AllTime => 3,
    }
}

/// The rank shown before entry `i` (0-based) of a ranked list: its 1-based
/// number right-aligned in two columns, then a dot and a space.
pub fn rank_prefix(i: u64) -> (s: String)
    requires
        i < u64::MAX,
    ensures
        s@ == (if i + 1 < 10 {
            " "@
        } else {
            Seq::<char>::empty()
        }) + dec((i + 1) as nat) + ". "@,
{
    let n: String = u64_to_string(i + 1);
    let pad: &str = if i + 1 < 10 {
        " "
    } else {
        ""
    };
    proof {
        reveal_strlit(" ");
        reveal_strlit("");
    }
    join3(pad, n.as_str(), ". ")
}


/// How a piece of the stats summary strip is colored: the accent color in
/// bold, the text color, or the hint color.
#[derive(Debug, Clone, Copy, PartialEq, Eq, Structural)]
pub enum SummaryStyle {
    Emphasis,
    Text,
    Hint,
}

/// The listening streaks the stats summary shows, with today's listening
/// time already written as a duration.
#[derive(Debug, Clone, PartialEq, Eq)]
pub struct StreakSummary {
    pub current_days: u64,
    pub longest_days: u64,
    pub today: String,
}

/// The pieces of the stats summary strip: the streak when one is known,
/// then the loading marker or the period's totals (play count and the
/// listening time written as a duration); a nudge when there is nothing.
pub open spec fn summary_spans(
    streaks: Option<StreakSummary>,
    loading: bool,
    totals: Option<(u64, Seq<char>)>,
) -> Seq<(Seq<char>, SummaryStyle)> {
    let streak_part: Seq<(Seq<char>, SummaryStyle)> = match streaks {
        Some(s) => seq![
            (dec(s.current_days as nat) + "-day streak"@, SummaryStyle::Emphasis),
            (" (best "@ + dec(s.longest_days as nat) + ") · "@ + s.today@ + " today"@, SummaryStyle::Text),
        ],
        None => Seq::empty(),
    };
    let totals_part: Seq<(Seq<char>, SummaryStyle)> = if loading {
        seq![("  [Loading...]"@, SummaryStyle::Hint)]
    } else {
        match totals {
            Some((plays, listened)) => seq![
                ("  "@ + dec(plays as nat) + " plays · "@ + listened + " listened"@, SummaryStyle::Text),
            ],
            None => Seq::empty(),
        }
    };
    let all = streak_part + totals_part;
    if all.len() == 0 {
        seq![("No listening history recorded yet. Play something!"@, SummaryStyle::Hint)]
    } else {
        all
    }
}

/// The totals (play count, listening time) with the time as characters.
pub open spec fn totals_view(totals: Option<(u64, String)>) -> Option<(u64, Seq<char>)> {
    match totals {
        Some((p, t)) => Some((p, t@)),
        None => None,
    }
}

/// The stats summary strip, piece by piece with its style.
pub fn stats_summary(
    streaks: &Option<StreakSummary>,
    loading: bool,
    totals: &Option<(u64, String)>,
) -> (r: Vec<(String, SummaryStyle)>)
    ensures
        r@.map_values(|e: (String, SummaryStyle)| (e.0@, e.1)) == summary_spans(
            *streaks,
            loading,
            totals_view(*totals),
        ),
{
    let mut r: Vec<(String, SummaryStyle)> = Vec::new();
    if let Some(s) = streaks {
        let days: String = u64_to_string(s.current_days);
        let first: String = join2(days.as_str(), "-day streak");
        r.push((first, SummaryStyle::Emphasis));
        let best: String = u64_to_string(s.longest_days);
        let head: String = join3(" (best ", best.as_str(), ") · ");
        let second: String = join3(head.as_str(), s.today.as_str(), " today");
        r.push((second, SummaryStyle::Text));
    }
    if loading {
        r.push((owned("  [Loading...]"), SummaryStyle::Hint));
    } else if let Some((plays, listened)) = totals {
        let count: String = u64_to_string(*plays);
        let head: String = join3("  ", count.as_str(), " plays · ");
        let line: String = join3(head.as_str(), listened.as_str(), " listened");
        r.push((line, SummaryStyle::Text));
    }
    if r.len() == 0 {
        r.push((owned("No listening history recorded yet. Play something!"), SummaryStyle::Hint));
    }
    assert(r@.map_values(|e: (String, SummaryStyle)| (e.0@, e.1)) =~= summary_spans(
        *streaks,
        loading,
        totals_view(*totals),
    ));
    r
}

/// The line the last-days panel shows when the period has no plays.
pub fn no_plays_text() -> (t: String)
    ensures
        t@ == "No plays in this period yet."@,
{
    owned("No plays in this period yet.")
}

} // verus!
