//! The CPU architectures for which a toolchain can be resolved.

use crate::error::ConfigurationError;
use crate::text::str_eq;
use vstd::prelude::*;

verus! {

/// A supported CPU architecture.
#[derive(Debug, Clone, Copy, PartialEq, Eq, Hash, Structural)]
pub enum Arch {
    X86,
    X86_64,
    Arm,
    Arm64,
}

/// The family of LLVM back ends that generates code for an architecture.
#[derive(Debug, Clone, Copy, PartialEq, Eq, Hash, Structural)]
pub enum Backend {
    X86,
    AArch64,
    Arm,
}

impl Arch {
    /// The name of the architecture in the name of an artifact.
    pub open spec fn name(self) -> Seq<char> {
        match self {
            Arch::X86 => "x86"@,
            Arch::X86_64 => "x86_64"@,
            Arch::Arm => "arm"@,
            Arch::Arm64 => "arm64"@,
        }
    }

    /// The name of the architecture in the name of an artifact.
    pub fn as_str(self) -> (r: &'static str)
        ensures
            r@ == self.name(),
    {
        match self {
            Arch::X86 => "x86",
            Arch::X86_64 => "x86_64",
            Arch::Arm => "arm",
            Arch::Arm64 => "arm64",
        }
    }

    /// The back end whose initialisers serve this architecture: both x86
    /// widths share one.
    pub fn backend(self) -> (b: Backend)
        ensures
            b == match self {
                Arch::X86 | Arch::X86_64 => Backend::X86,
                Arch::Arm64 => Backend::AArch64,
                Arch::Arm => Backend::Arm,
            },
    {
        match self {
            Arch::X86 => Backend::X86,
            Arch::X86_64 => Backend::X86,
            Arch::Arm64 => Backend::AArch64,
            Arch::Arm => Backend::Arm,
        }
    }
}

/// The architecture that a compiler calls `target_arch`, if it is supported.
pub open spec fn arch_named(target_arch: Seq<char>) -> Result<Arch, ConfigurationError> {
    if target_arch == "x86"@ {
        Ok(Arch::X86)
    } else if target_arch == "x86_64"@ {
        Ok(Arch::X86_64)
    } else if target_arch == "aarch64"@ {
        Ok(Arch::Arm64)
    } else if target_arch == "arm"@ {
        Ok(Arch::Arm)
    } else {
        Err(ConfigurationError::UnsupportedArch)
    }
}

/// The architecture of the build, from the compiler's name for it.
pub fn get_current_arch(target_arch: &str) -> (r: Result<Arch, ConfigurationError>)
    ensures
        r == arch_named(target_arch@),
{
    if str_eq(target_arch, "x86") {
        Ok(Arch::X86)
    } else if str_eq(target_arch, "x86_64") {
        Ok(Arch::X86_64)
    } else if str_eq(target_arch, "aarch64") {
        Ok(Arch::Arm64)
    } else if str_eq(target_arch, "arm") {
        Ok(Arch::Arm)
    } else {
        Err(ConfigurationError::UnsupportedArch)
    }
}

} // verus!
