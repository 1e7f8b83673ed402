//! State machines behind a terminal viewer for MQTT traffic.
//!
//! The crate holds the part of the viewer that decides: how the message list
//! pages and filters, how the time fields are edited, which quick filters let
//! a message through, which screen regions changed, and what the program has
//! to ask of its store next. Drawing, the broker connection and the store
//! itself live with the caller, which performs each [`app::Effect`] and hands
//! the outcome back.

pub mod app;
pub mod app_events;
pub mod config;
pub mod datetime;
pub mod display;
pub mod events;
pub mod filter_bar;
pub mod json_formatter;
pub mod list_keys;
pub mod message_list;
pub mod models;
pub mod mqtt;
pub mod pattern;
pub mod quick_filter;
pub mod status_bar;
pub mod store;
pub mod text;
pub mod topic_list;
pub mod topic_stats;
