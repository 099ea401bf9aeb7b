//! The operating system that a build of the game is made for.
use vstd::prelude::*;
use crate::text::str_eq;

verus! {

/// The systems for which the game is released.
#[derive(Debug, Clone, Copy, PartialEq, Eq, Structural)]
pub enum Platform {
    Windows,
    Linux,
    OSx,
    Android,
    Unknown,
}

/// The platform that a target system name (as in `std::env::consts::OS`)
/// stands for.
pub open spec fn platform_for_os(os: Seq<char>) -> Platform {
    if os == "windows"@ {
        Platform::Windows
    } else if os == "linux"@ {
        Platform::Linux
    } else if os == "macos"@ {
        Platform::OSx
    } else {
        Platform::Unknown
    }
}

impl Platform {
    /// The platform of the system the program was built for, named by
    /// `target_os`.
    pub fn default(target_os: &str) -> (p: Platform)
        ensures
            p == platform_for_os(target_os@),
    {
        if str_eq(target_os, "windows") {
            Platform::Windows
        } else if str_eq(target_os, "linux") {
            Platform::Linux
        } else if str_eq(target_os, "macos") {
            Platform::OSx
        } else {
            Platform::Unknown
        }
    }
}

} // verus!
