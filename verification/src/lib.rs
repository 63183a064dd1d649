//! The decisions of a desktop application around the mihomo core: which configuration the core runs
//! with, when the proxies of the system follow it, and what the user is shown.
//!
//! Whatever reaches outside is left to the caller. An operation that needs it is a row of steps:
//! each step says what it awaits, and the reply leads to the next.

pub mod config;
pub mod core_service;
pub mod errors;
pub mod host;
pub mod number;
pub mod paths;
pub mod services;
pub mod settings;
pub mod snapshot_store;
pub mod subscriptions;
pub mod system_proxy;
pub mod text;
pub mod utf8;
