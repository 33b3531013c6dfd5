//! Keys on a screen published by a plugin. Global bindings have already
//! run; what reaches here is queued for the owning plugin's key callback,
//! named the way config.yml names keys.

use vstd::prelude::*;

use crate::domain::app::{nav_popped, only_nav, App, RouteId};
use crate::text::{char_to_string, join2, owned};
use crate::tui::event::Key;

verus! {

/// The config.yml name of a key; empty for an unknown key.
pub open spec fn key_text(key: Key) -> Seq<char> {
    match key {
        Key::Char(c) => if c == ' ' {
            "space"@
        } else {
            seq![c]
        },
        Key::Ctrl(c) => "ctrl-"@ + seq![c],
        Key::Alt(c) => "alt-"@ + seq![c],
        Key::Enter => "enter"@,
        Key::Tab => "tab"@,
        Key::Esc => "esc"@,
        Key::Backspace => "backspace"@,
        Key::Delete => "del"@,
        Key::Left => "left"@,
        Key::Right => "right"@,
        Key::Up => "up"@,
        Key::Down => "down"@,
        Key::Home => "home"@,
        Key::End => "end"@,
        Key::Ins => "ins"@,
        Key::PageUp => "pageup"@,
        Key::PageDown => "pagedown"@,
        Key::F0 => "f0"@,
        Key::F1 => "f1"@,
        Key::F2 => "f2"@,
        Key::F3 => "f3"@,
        Key::F4 => "f4"@,
        Key::F5 => "f5"@,
        Key::F6 => "f6"@,
        Key::F7 => "f7"@,
        Key::F8 => "f8"@,
        Key::F9 => "f9"@,
        Key::F10 => "f10"@,
        Key::F11 => "f11"@,
        Key::F12 => "f12"@,
        Key::Unknown => Seq::empty(),
    }
}

/// The config.yml name of a key; empty for an unknown key.
pub fn plugin_key_string(key: Key) -> (s: String)
    ensures
        s@ == key_text(key),
{
    match key {
        Key::Char(c) => if c == ' ' {
            owned("space")
        } else {
            char_to_string(c)
        },
        Key::Ctrl(c) => join2("ctrl-", char_to_string(c).as_str()),
        Key::Alt(c) => join2("alt-", char_to_string(c).as_str()),
        Key::Enter => owned("enter"),
        Key::Tab => owned("tab"),
        Key::Esc => owned("esc"),
        Key::Backspace => owned("backspace"),
        Key::Delete => owned("del"),
        Key::Left => owned("left"),
        Key::Right => owned("right"),
        Key::Up => owned("up"),
        Key::Down => owned("down"),
        Key::Home => owned("home"),
        Key::End => owned("end"),
        Key::Ins => owned("ins"),
        Key::PageUp => owned("pageup"),
        Key::PageDown => owned("pagedown"),
        Key::F0 => owned("f0"),
        Key::F1 => owned("f1"),
        Key::F2 => owned("f2"),
        Key::F3 => owned("f3"),
        Key::F4 => owned("f4"),
        Key::F5 => owned("f5"),
        Key::F6 => owned("f6"),
        Key::F7 => owned("f7"),
        Key::F8 => owned("f8"),
        Key::F9 => owned("f9"),
        Key::F10 => owned("f10"),
        Key::F11 => owned("f11"),
        Key::F12 => owned("f12"),
        Key::Unknown => String::new(),
    }
}

/// The scroll step of PageUp and PageDown, in rows.
pub const SCROLL_STEP: u16 = 5;

/// What a key press on a plugin screen does to the app.
pub open spec fn plugin_screen_handled(a: App, key: Key, b: App) -> bool {
    match a.navigation_stack@.last().id {
        RouteId::PluginScreen(screen) => match key {
            Key::Esc => only_nav(a, b, nav_popped(a.navigation_stack@)),
            Key::PageUp => b == App {
                plugin_screen_scroll: if a.plugin_screen_scroll >= SCROLL_STEP {
                    (a.plugin_screen_scroll - SCROLL_STEP) as u16
                } else {
                    0
                },
                ..a
            },
            Key::PageDown => b == App {
                plugin_screen_scroll: if a.plugin_screen_scroll + SCROLL_STEP <= u16::MAX {
                    (a.plugin_screen_scroll + SCROLL_STEP) as u16
                } else {
                    u16::MAX
                },
                ..a
            },
            _ => if key_text(key).len() == 0 {
                b == a
            } else {
                &&& b == App { pending_plugin_screen_keys: b.pending_plugin_screen_keys, ..a }
                &&& b.pending_plugin_screen_keys@.len() == a.pending_plugin_screen_keys@.len() + 1
                &&& b.pending_plugin_screen_keys@.drop_last() == a.pending_plugin_screen_keys@
                &&& b.pending_plugin_screen_keys@.last().0@ == screen@
                &&& b.pending_plugin_screen_keys@.last().1@ == key_text(key)
            },
        },
        _ => b == a,
    }
}

pub fn handler(key: Key, app: &mut App)
    ensures
        plugin_screen_handled(*old(app), key, *final(app)),
{
    let screen: String = match &app.get_current_route().id {
        RouteId::PluginScreen(name) => name.clone(),
        _ => {
            return ;
        },
    };
    match key {
        Key::Esc => {
            app.pop_navigation_stack();
        },
        Key::PageUp => {
            app.plugin_screen_scroll = app.plugin_screen_scroll.saturating_sub(SCROLL_STEP);
        },
        Key::PageDown => {
            app.plugin_screen_scroll = app.plugin_screen_scroll.saturating_add(SCROLL_STEP);
        },
        _ => {
            let key_string: String = plugin_key_string(key);
            if key_string.as_str().unicode_len() > 0 {
                app.pending_plugin_screen_keys.push((screen, key_string));
                assert(app.pending_plugin_screen_keys@.drop_last()
                    =~= old(app).pending_plugin_screen_keys@);
            }
        },
    }
}

} // verus!
