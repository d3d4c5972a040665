//! Dated markdown memos: configuration resolution and the memo lifecycle.

pub mod clock;
pub mod config;
pub mod create;
pub mod disk;
pub mod edit;
pub mod error;
pub mod home;
pub mod load;
pub mod memo;
pub mod text;
