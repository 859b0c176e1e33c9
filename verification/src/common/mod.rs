//! Events, effects, errors and the small parsers they need.
pub mod channel;
pub mod effect;
pub mod error;
pub mod event;
pub mod twitch;
