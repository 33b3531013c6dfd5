//! Verified core of the spotatui terminal music client: the plugin-facing
//! domain model, the scripting API's validation and effect rules, the
//! playback-event differ, the navigation model and the key handlers.

pub mod domain;
pub mod infra;
pub mod text;
pub mod tui;
