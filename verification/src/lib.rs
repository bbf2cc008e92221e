//! Core rules of a self-hosted home control dashboard: the configuration file
//! and its defaults, which parts of the API are served, the login and setup
//! decisions, the Home Assistant entity state cache, and the relay of state
//! changes to connected browsers.
pub mod config;
pub mod ha;
pub mod text;
pub mod api;
pub mod auth;
pub mod login;
pub mod setup;
pub mod socket;
pub mod frontend;
pub mod laws;
