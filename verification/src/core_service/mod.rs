//! The core as a service of the operating system.

pub mod args;
pub mod service;
pub mod types;
pub mod wide;
