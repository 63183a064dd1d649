//! The application's settings.

use vstd::prelude::*;

verus! {

/// The settings. Those that nothing here reads are carried along in `rest`.
#[derive(Debug, PartialEq, Eq)]
pub struct AppSettings<S> {
    /// The proxies of the system follow the core.
    pub system_proxy_enabled: bool,
    /// The override script has a say in the core's configuration.
    pub override_script_enabled: bool,
    pub rest: S,
}

} // verus!
