//! The host platform families that the locator distinguishes.

use crate::text::same_text;
use vstd::prelude::*;

verus! {

/// The platform family that a build or a running application targets.
#[derive(Clone, Copy, Debug, PartialEq, Eq, Structural)]
pub enum Platform {
    /// Windows hosts: a single profile-directory layout is probed.
    Windows,
    /// Linux and other Unix hosts: three strategies are probed in order.
    Unix,
}

/// The platform family of the operating system that is named `os`.
pub open spec fn platform_of(os: Seq<char>) -> Platform {
    if os == "windows"@ {
        Platform::Windows
    } else {
        Platform::Unix
    }
}

impl Platform {
    /// The platform family of the operating system that is named `os`:
    /// Windows for `windows`, Unix for every other name.
    pub fn from_os(os: &str) -> (r: Platform)
        ensures
            r == platform_of(os@),
    {
        if same_text(os, "windows") {
            Platform::Windows
        } else {
            Platform::Unix
        }
    }
}

} // verus!
