//! Keys on the monthly-recap prompt.
//!
//! Opening the recap in a browser is work for the runtime: the handler asks
//! for it, and the runtime reports a failure back through
//! [`recap_open_failed`].

use vstd::prelude::*;

use crate::domain::app::{nav_popped, notified, App, AppRequest};
use crate::domain::user_config::{BehaviorConfig, UserConfig};
use crate::text::{join3, owned};
use crate::tui::event::Key;

verus! {

/// The status text shown after the prompt is turned off.
pub open spec fn prompt_disabled_text() -> Seq<char> {
    "Monthly recap prompt disabled (re-enable in Settings)"@
}

/// The status text shown when the browser could not open the recap at `path`.
pub open spec fn open_failed_text(path: Seq<char>) -> Seq<char> {
    "Recap saved at "@ + path + " (couldn't open browser)"@
}

/// What a key press on the recap prompt does to the app.
pub open spec fn recap_prompt_handled(a: App, key: Key, b: App) -> bool {
    let popped = nav_popped(a.navigation_stack@);
    if key == Key::Enter || key == Key::Char('o') {
        &&& b == App {
            recap_prompt: None,
            requests: b.requests,
            navigation_stack: b.navigation_stack,
            ..a
        }
        &&& b.navigation_stack@ == popped
        &&& b.requests@ == match a.recap_prompt {
            Some(p) => a.requests@.push(AppRequest::OpenInBrowser(p.path)),
            None => a.requests@,
        }
    } else if key == Key::Char('d') {
        &&& b == App {
            recap_prompt: None,
            user_config: UserConfig {
                behavior: BehaviorConfig {
                    enable_monthly_recap_prompt: false,
                    ..a.user_config.behavior
                },
                ..a.user_config
            },
            requests: b.requests,
            status_message: b.status_message,
            navigation_stack: b.navigation_stack,
            ..a
        }
        &&& b.requests@ == a.requests@.push(AppRequest::SaveConfig)
        &&& notified(a, b, prompt_disabled_text(), 6)
        &&& b.navigation_stack@ == popped
    } else {
        b == a
    }
}

pub fn handler(key: Key, app: &mut App)
    ensures
        recap_prompt_handled(*old(app), key, *final(app)),
{
    if key == Key::Enter || key == Key::Char('o') {
        let prompt = app.recap_prompt.take();
        if let Some(p) = prompt {
            app.request(AppRequest::OpenInBrowser(p.path));
        }
        app.pop_navigation_stack();
    } else if key == Key::Char('d') {
        app.recap_prompt = None;
        app.user_config.behavior.enable_monthly_recap_prompt = false;
        app.request(AppRequest::SaveConfig);
        proof {
            reveal_strlit("Monthly recap prompt disabled (re-enable in Settings)");
        }
        app.set_status_message(owned("Monthly recap prompt disabled (re-enable in Settings)"), 6);
        app.pop_navigation_stack();
    }
}

/// The browser could not open the recap saved at `path`: say where it is.
pub fn recap_open_failed(app: &mut App, path: &str)
    ensures
        *final(app) == (App { status_message: final(app).status_message, ..*old(app) }),
        notified(*old(app), *final(app), open_failed_text(path@), 8),
{
    proof {
        reveal_strlit("Recap saved at ");
        reveal_strlit(" (couldn't open browser)");
    }
    let text: String = join3("Recap saved at ", path, " (couldn't open browser)");
    app.set_status_message(text, 8);
}

} // verus!
