//! The host platform, resolved once by the caller and passed into
//! every function whose outcome depends on it: command planning
//! branches on the platform at plan time, never at execution time.

use vstd::prelude::*;

use crate::text::str_eq;

verus! {

/// The platform families the library distinguishes.
#[derive(Clone, Copy, PartialEq, Eq, Structural, Debug)]
pub enum Platform {
    Windows,
    Macos,
    Linux,
    Other,
}

/// Presentation of the host platform to the GUI.
#[derive(Debug, PartialEq)]
pub struct PlatformInfo {
    pub platform: String,
    pub platform_name: String,
    pub arch: String,
}

/// The platform family behind an operating-system identifier as the
/// host reports it.
pub open spec fn platform_of(os: Seq<char>) -> Platform {
    if os == "windows"@ {
        Platform::Windows
    } else if os == "macos"@ {
        Platform::Macos
    } else if os == "linux"@ {
        Platform::Linux
    } else {
        Platform::Other
    }
}

/// The display name of a platform family.
pub open spec fn platform_name_of(p: Platform) -> Seq<char> {
    match p {
        Platform::Windows => "Windows"@,
        Platform::Macos => "macOS"@,
        Platform::Linux => "Linux"@,
        Platform::Other => "Unknown"@,
    }
}

impl Platform {
    /// The platform family behind an operating-system identifier.
    pub fn from_os(os: &str) -> (r: Platform)
        ensures
            r == platform_of(os@),
    {
        if str_eq(os, "windows") {
            Platform::Windows
        } else if str_eq(os, "macos") {
            Platform::Macos
        } else if str_eq(os, "linux") {
            Platform::Linux
        } else {
            Platform::Other
        }
    }

    /// Whether command planning must use the Windows conventions.
    pub fn is_windows(&self) -> (r: bool)
        ensures
            r == (*self is Windows),
    {
        match self {
            Platform::Windows => true,
            _ => false,
        }
    }
}

/// What the GUI shows of the host: the raw identifiers and the display
/// name of the platform family.
pub fn get_platform_info(os: &str, arch: &str) -> (r: PlatformInfo)
    ensures
        r.platform@ == os@,
        r.platform_name@ == platform_name_of(platform_of(os@)),
        r.arch@ == arch@,
{
    let name: &str = if str_eq(os, "windows") {
        "Windows"
    } else if str_eq(os, "macos") {
        "macOS"
    } else if str_eq(os, "linux") {
        "Linux"
    } else {
        "Unknown"
    };
    PlatformInfo { platform: os.to_owned(), platform_name: name.to_owned(), arch: arch.to_owned() }
}

} // verus!
