//! The platform that the application runs on.

use vstd::prelude::*;

verus! {

/// The operating systems that make a difference.
#[derive(Clone, Copy, Debug, PartialEq, Eq, Structural)]
pub enum HostPlatform {
    Macos,
    Windows,
    Other,
}

} // verus!
