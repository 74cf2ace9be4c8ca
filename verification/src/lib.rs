//! Verified core of a small game-server platform: one supervisor process starts one
//! group process per user group, each group process owns its own SQLite key/value
//! store, and a public gateway forwards HTTP and WebSocket traffic to the group.
//!
//! This crate holds the decisions of the three programs; the network, the database
//! and the processes themselves are driven by the programs around it.

pub mod activity;
pub mod args;
pub mod clock;
pub mod decimal;
pub mod endpoints;
pub mod ensure;
pub mod group_id;
pub mod messages;
pub mod readiness;
pub mod registry;
pub mod reply;
pub mod settings;
pub mod ws;
