use spotatui::domain::app::{ActiveBlock, App, RouteId};
use spotatui::domain::plugin_api::{PluginScreenContent, PluginWidget};
use spotatui::domain::user_config::{color_to_string, parse_theme_item, ThemeColor, UserConfig};
use spotatui::infra::history::RecapPeriod;
use spotatui::infra::scripting::api::response_ok;
use spotatui::tui::ui::{
    no_content_text, period_tab_index, rank_prefix, ranked_selection, screen_title,
    visible_selection, widget_rows,
};

#[test]
fn colors_read_back_as_written() {
    let colors = [
        ThemeColor::Reset,
        ThemeColor::Black,
        ThemeColor::LightMagenta,
        ThemeColor::White,
        ThemeColor::Rgb(0, 0, 0),
        ThemeColor::Rgb(255, 128, 7),
        ThemeColor::Rgb(10, 200, 99),
    ];
    for c in colors {
        let text = color_to_string(c);
        assert_eq!(parse_theme_item(&text), Ok(c), "text {text}");
    }
    assert_eq!(color_to_string(ThemeColor::Rgb(255, 128, 7)), "255, 128, 7");
}

#[test]
fn push_then_pop_restores_the_stack() {
    let mut app = App::new(UserConfig::new());
    app.push_navigation_stack(RouteId::Queue, ActiveBlock::Queue);
    let before: Vec<RouteId> = vec![app.get_current_route().id.clone()];
    app.push_navigation_stack(RouteId::Settings, ActiveBlock::Settings);
    app.pop_navigation_stack();
    assert_eq!(vec![app.get_current_route().id.clone()], before);
    app.pop_navigation_stack();
    app.pop_navigation_stack();
    assert_eq!(app.get_current_route().id, RouteId::Home);
}

#[test]
fn pushing_the_current_screen_again_changes_nothing() {
    let mut app = App::new(UserConfig::new());
    app.push_navigation_stack(RouteId::Queue, ActiveBlock::Queue);
    app.push_navigation_stack(RouteId::Queue, ActiveBlock::Queue);
    app.pop_navigation_stack();
    assert_eq!(app.get_current_route().id, RouteId::Home);
}

#[test]
fn http_success_is_2xx() {
    assert!(response_ok(204));
    assert!(response_ok(200));
    assert!(!response_ok(404));
    assert!(!response_ok(300));
    assert!(!response_ok(199));
}

#[test]
fn screen_titles_and_placeholders() {
    let screens = vec![
        ("a".to_string(), PluginScreenContent { title: "Alpha".to_string(), widgets: vec![] }),
        ("b".to_string(), PluginScreenContent { title: String::new(), widgets: vec![] }),
    ];
    assert_eq!(screen_title(&screens, "a"), "Alpha");
    assert_eq!(screen_title(&screens, "b"), "b");
    assert_eq!(screen_title(&screens, "c"), "c");
    assert_eq!(no_content_text("c"), "plugin screen 'c' has no content yet");
}

#[test]
fn widget_rows_and_selections() {
    assert_eq!(widget_rows(&PluginWidget::Paragraph { lines: vec![], height: Some(4) }), Some(4));
    assert_eq!(widget_rows(&PluginWidget::Paragraph { lines: vec![], height: None }), None);
    assert_eq!(widget_rows(&PluginWidget::Gauge { ratio_bits: 0, label: None }), Some(3));
    assert_eq!(visible_selection(Some(2), 2), None);
    assert_eq!(visible_selection(Some(1), 2), Some(1));
    assert_eq!(ranked_selection(7, 3), Some(2));
    assert_eq!(ranked_selection(1, 3), Some(1));
    assert_eq!(ranked_selection(0, 0), None);
    assert_eq!(period_tab_index(RecapPeriod::Year), 2);
    assert_eq!(rank_prefix(0), " 1. ");
    assert_eq!(rank_prefix(9), "10. ");
}
