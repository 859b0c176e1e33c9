//! PS5 to Bilibili live bridge: the decision logic, verified.
pub mod actors;
pub mod cli;
pub mod common;
pub mod config;
pub mod dispatch;
pub mod dns;
pub mod luci;
pub mod run;
pub mod system;
pub mod text;
