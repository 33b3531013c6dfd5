pub mod api;
pub mod effects;
pub mod events;
pub mod shared;
pub mod storage;
