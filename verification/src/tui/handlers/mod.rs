pub mod common_key_events;
pub mod episode_table;
pub mod library;
pub mod plugin_screen;
pub mod recap_prompt;
pub mod stats;
