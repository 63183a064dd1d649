//! The application's operations, with the stores, the core and the network left to the caller.

pub mod exit;
pub mod launch;
pub mod profile;
pub mod proxy_sync;
pub mod runtime_config;
pub mod scripts;
pub mod selection;
pub mod state;
