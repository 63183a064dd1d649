//! The proxies of the operating system's network services.

pub mod capture;
pub mod commands;
pub mod outcome;
pub mod report;
pub mod request;
pub mod restore;
pub mod state;
pub mod update;
