use spotatui::tui::ui::{no_plays_text, stats_summary, StreakSummary, SummaryStyle};

fn pieces(v: &[(&str, SummaryStyle)]) -> Vec<(String, SummaryStyle)> {
    v.iter().map(|(t, st)| (t.to_string(), *st)).collect()
}

#[test]
fn summary_with_streak_and_totals() {
    let streaks = Some(StreakSummary { current_days: 3, longest_days: 12, today: "45m".to_string() });
    let totals = Some((17u64, "2h 5m".to_string()));
    assert_eq!(
        stats_summary(&streaks, false, &totals),
        pieces(&[
            ("3-day streak", SummaryStyle::Emphasis),
            (" (best 12) · 45m today", SummaryStyle::Text),
            ("  17 plays · 2h 5m listened", SummaryStyle::Text),
        ])
    );
}

#[test]
fn summary_while_loading_shows_the_marker_not_the_totals() {
    let totals = Some((17u64, "2h 5m".to_string()));
    assert_eq!(
        stats_summary(&None, true, &totals),
        pieces(&[("  [Loading...]", SummaryStyle::Hint)])
    );
}

#[test]
fn summary_with_nothing_nudges() {
    assert_eq!(
        stats_summary(&None, false, &None),
        pieces(&[("No listening history recorded yet. Play something!", SummaryStyle::Hint)])
    );
    assert_eq!(no_plays_text(), "No plays in this period yet.");
}
