//! The target of a build: LLVM version, architecture and operating system.

use crate::arch::{arch_named, get_current_arch};
use crate::error::ConfigurationError;
use crate::features::{get_current_llvm_feature, selected_feature, LLVMFeatures};
use crate::os::{get_current_os, os_named};
use vstd::prelude::*;

pub use crate::arch::Arch;
pub use crate::os::OS;

verus! {

/// A supported LLVM version.
#[derive(Debug, Clone, Copy, PartialEq, Eq, Hash, Structural)]
#[must_use]
pub enum LLVMVersion {
    LLVM19,
    LLVM20,
    LLVM21,
}

impl LLVMVersion {
    /// The major version number.
    pub open spec fn major(self) -> nat {
        match self {
            LLVMVersion::LLVM19 => 19,
            LLVMVersion::LLVM20 => 20,
            LLVMVersion::LLVM21 => 21,
        }
    }

    /// The major version number.
    pub fn number(self) -> (n: u32)
        ensures
            n == self.major(),
    {
        match self {
            LLVMVersion::LLVM19 => 19,
            LLVMVersion::LLVM20 => 20,
            LLVMVersion::LLVM21 => 21,
        }
    }

    /// The feature flag that selects this version.
    pub open spec fn flag(self) -> LLVMFeatures {
        match self {
            LLVMVersion::LLVM19 => LLVMFeatures::LLVM19,
            LLVMVersion::LLVM20 => LLVMFeatures::LLVM20,
            LLVMVersion::LLVM21 => LLVMFeatures::LLVM21,
        }
    }

    /// The feature flag that selects this version.
    pub fn feature(self) -> (f: LLVMFeatures)
        ensures
            f == self.flag(),
    {
        match self {
            LLVMVersion::LLVM19 => LLVMFeatures::LLVM19,
            LLVMVersion::LLVM20 => LLVMFeatures::LLVM20,
            LLVMVersion::LLVM21 => LLVMFeatures::LLVM21,
        }
    }
}

impl LLVMFeatures {
    /// The version that this flag selects.
    pub open spec fn selects(self) -> LLVMVersion {
        match self {
            LLVMFeatures::LLVM19 => LLVMVersion::LLVM19,
            LLVMFeatures::LLVM20 => LLVMVersion::LLVM20,
            LLVMFeatures::LLVM21 => LLVMVersion::LLVM21,
        }
    }

    /// The version that this flag selects.
    pub fn version(self) -> (v: LLVMVersion)
        ensures
            v == self.selects(),
    {
        match self {
            LLVMFeatures::LLVM19 => LLVMVersion::LLVM19,
            LLVMFeatures::LLVM20 => LLVMVersion::LLVM20,
            LLVMFeatures::LLVM21 => LLVMVersion::LLVM21,
        }
    }
}

/// What a build is configured with: which version flags are set, and the
/// compiler's names for the architecture and the operating system.
#[derive(Debug, Clone, PartialEq, Eq)]
pub struct BuildConfig {
    pub llvm_19: bool,
    pub llvm_20: bool,
    pub llvm_21: bool,
    pub target_arch: String,
    pub target_os: String,
}

/// A target: LLVM version, architecture and operating system.
#[derive(Debug, Clone, Copy, PartialEq, Eq, Hash, Structural)]
#[must_use]
pub struct Target {
    pub llvm_version: LLVMVersion,
    pub arch: Arch,
    pub os: OS,
}

/// The version that the flags select, where exactly one of them is set.
pub open spec fn selected_version(llvm_19: bool, llvm_20: bool, llvm_21: bool) -> Result<
    LLVMVersion,
    ConfigurationError,
> {
    match selected_feature(llvm_19, llvm_20, llvm_21) {
        Ok(f) => Ok(f.selects()),
        Err(e) => Err(e),
    }
}

/// The target that a configuration resolves to: the selected version with the
/// named architecture and operating system. Of several faults the first in
/// that order is reported.
pub open spec fn resolved(
    llvm_19: bool,
    llvm_20: bool,
    llvm_21: bool,
    target_arch: Seq<char>,
    target_os: Seq<char>,
) -> Result<Target, ConfigurationError> {
    match selected_version(llvm_19, llvm_20, llvm_21) {
        Err(e) => Err(e),
        Ok(llvm_version) => match arch_named(target_arch) {
            Err(e) => Err(e),
            Ok(arch) => match os_named(target_os) {
                Err(e) => Err(e),
                Ok(os) => Ok(Target { llvm_version, arch, os }),
            },
        },
    }
}

impl Target {
    /// The target with the given parts.
    pub fn new(llvm_version: LLVMVersion, arch: Arch, os: OS) -> (t: Self)
        ensures
            t == (Target { llvm_version, arch, os }),
    {
        Self { llvm_version, arch, os }
    }

    /// The LLVM version of the target.
    pub fn llvm_version(&self) -> (v: LLVMVersion)
        ensures
            v == self.llvm_version,
    {
        self.llvm_version
    }

    /// The architecture of the target.
    pub fn arch(&self) -> (a: Arch)
        ensures
            a == self.arch,
    {
        self.arch
    }

    /// The operating system of the target.
    pub fn os(&self) -> (o: OS)
        ensures
            o == self.os,
    {
        self.os
    }

    /// The target that the configuration resolves to.
    pub fn get_current(config: &BuildConfig) -> (r: Result<Self, ConfigurationError>)
        ensures
            r == resolved(
                config.llvm_19,
                config.llvm_20,
                config.llvm_21,
                config.target_arch@,
                config.target_os@,
            ),
    {
        let llvm_version = match get_current_llvm_version(
            config.llvm_19,
            config.llvm_20,
            config.llvm_21,
        ) {
            Ok(v) => v,
            Err(e) => {
                return Err(e);
            },
        };
        let arch = match get_current_arch(config.target_arch.as_str()) {
            Ok(a) => a,
            Err(e) => {
                return Err(e);
            },
        };
        let os = match get_current_os(config.target_os.as_str()) {
            Ok(o) => o,
            Err(e) => {
                return Err(e);
            },
        };
        Ok(Self::new(llvm_version, arch, os))
    }
}

/// The LLVM version that the build selects: that of the one flag that is set.
pub fn get_current_llvm_version(llvm_19: bool, llvm_20: bool, llvm_21: bool) -> (r: Result<
    LLVMVersion,
    ConfigurationError,
>)
    ensures
        r == selected_version(llvm_19, llvm_20, llvm_21),
{
    match get_current_llvm_feature(llvm_19, llvm_20, llvm_21) {
        Ok(f) => Ok(f.version()),
        Err(e) => Err(e),
    }
}

} // verus!
