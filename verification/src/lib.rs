//! Core logic of a terminal dashboard for OpenStack clouds: configuration,
//! the Keystone service catalog, endpoint resolution, polling state and the
//! keyboard-driven navigation model.

pub mod auth;
pub mod cli;
pub mod client;
pub mod config;
pub mod state;
pub mod strmap;
pub mod text;
pub mod ui;
