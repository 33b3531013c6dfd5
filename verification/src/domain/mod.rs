pub mod app;
pub mod dup;
pub mod pagination;
pub mod plugin_api;
pub mod user_config;
