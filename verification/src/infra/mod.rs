pub mod history;
pub mod network;
pub mod scripting;
pub mod youtube;
