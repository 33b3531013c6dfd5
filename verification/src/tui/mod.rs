pub mod event;
pub mod handlers;
pub mod ui;
