//! An in-memory hub for group chat over persistent connections: a registry of
//! live sessions, room membership, the inbound command protocol, fan-out of
//! new messages and the lifecycle of each connection.
pub mod api;
pub mod auth;
pub mod config;
pub mod ids;
pub mod registry;
pub mod membership;
pub mod models;
pub mod protocol;
pub mod state;
pub mod commands;
pub mod guard;
pub mod session;

