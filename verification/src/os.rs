//! The operating systems for which a toolchain can be resolved.

use crate::error::ConfigurationError;
use crate::text::str_eq;
use vstd::prelude::*;

verus! {

/// A supported operating system.
#[derive(Debug, Clone, Copy, PartialEq, Eq, Hash, Structural)]
pub enum OS {
    Windows,
    Linux,
    MacOS,
}

impl OS {
    /// The name of the operating system in the name of an artifact.
    pub open spec fn name(self) -> Seq<char> {
        match self {
            OS::Windows => "windows"@,
            OS::Linux => "linux"@,
            OS::MacOS => "macos"@,
        }
    }

    /// The name of the operating system in the name of an artifact.
    pub fn as_str(self) -> (r: &'static str)
        ensures
            r@ == self.name(),
    {
        match self {
            OS::Windows => "windows",
            OS::Linux => "linux",
            OS::MacOS => "macos",
        }
    }
}

/// The operating system that a compiler calls `target_os`, if it is supported.
pub open spec fn os_named(target_os: Seq<char>) -> Result<OS, ConfigurationError> {
    if target_os == "windows"@ {
        Ok(OS::Windows)
    } else if target_os == "linux"@ {
        Ok(OS::Linux)
    } else if target_os == "macos"@ {
        Ok(OS::MacOS)
    } else {
        Err(ConfigurationError::UnsupportedOs)
    }
}

/// The operating system of the build, from the compiler's name for it.
pub fn get_current_os(target_os: &str) -> (r: Result<OS, ConfigurationError>)
    ensures
        r == os_named(target_os@),
{
    if str_eq(target_os, "windows") {
        Ok(OS::Windows)
    } else if str_eq(target_os, "linux") {
        Ok(OS::Linux)
    } else if str_eq(target_os, "macos") {
        Ok(OS::MacOS)
    } else {
        Err(ConfigurationError::UnsupportedOs)
    }
}

} // verus!
