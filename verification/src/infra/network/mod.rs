pub mod search;
pub mod sync;
