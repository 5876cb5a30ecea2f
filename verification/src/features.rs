//! The selection of one LLVM version by the build's feature flags.

use crate::error::ConfigurationError;
use std::collections::HashSet;
use vstd::prelude::*;

verus! {

/// The feature flag that selects an LLVM version.
#[derive(Debug, Clone, Copy, PartialEq, Eq, Hash, Structural)]
pub enum LLVMFeatures {
    LLVM19,
    LLVM20,
    LLVM21,
}

impl LLVMFeatures {
    /// The name of the flag, which is also the version's part of an artifact's name.
    pub open spec fn name(self) -> Seq<char> {
        match self {
            LLVMFeatures::LLVM19 => "llvm-19"@,
            LLVMFeatures::LLVM20 => "llvm-20"@,
            LLVMFeatures::LLVM21 => "llvm-21"@,
        }
    }

    /// The name of the flag, which is also the version's part of an artifact's name.
    pub fn as_str(self) -> (r: &'static str)
        ensures
            r@ == self.name(),
    {
        match self {
            LLVMFeatures::LLVM19 => "llvm-19",
            LLVMFeatures::LLVM20 => "llvm-20",
            LLVMFeatures::LLVM21 => "llvm-21",
        }
    }
}

/// The flag that is set, where exactly one of the three is.
pub open spec fn selected_feature(llvm_19: bool, llvm_20: bool, llvm_21: bool) -> Result<
    LLVMFeatures,
    ConfigurationError,
> {
    if !llvm_19 && !llvm_20 && !llvm_21 {
        Err(ConfigurationError::NoVersion)
    } else if llvm_19 && !llvm_20 && !llvm_21 {
        Ok(LLVMFeatures::LLVM19)
    } else if !llvm_19 && llvm_20 && !llvm_21 {
        Ok(LLVMFeatures::LLVM20)
    } else if !llvm_19 && !llvm_20 && llvm_21 {
        Ok(LLVMFeatures::LLVM21)
    } else {
        Err(ConfigurationError::MultipleVersions)
    }
}

/// The LLVM version that the build selects. Each argument says whether the
/// flag of that version is set; the selection fails unless exactly one is.
pub fn get_current_llvm_feature(llvm_19: bool, llvm_20: bool, llvm_21: bool) -> (r: Result<
    LLVMFeatures,
    ConfigurationError,
>)
    ensures
        r == selected_feature(llvm_19, llvm_20, llvm_21),
{
    broadcast use vstd::std_specs::hash::group_hash_axioms;

    // The major numbers of the versions whose flag is set.
    let mut features: HashSet<u32> = HashSet::new();
    if llvm_19 {
        features.insert(19);
    }
    if llvm_20 {
        features.insert(20);
    }
    if llvm_21 {
        features.insert(21);
    }
    if features.is_empty() {
        return Err(ConfigurationError::NoVersion);
    }
    if features.len() != 1 {
        return Err(ConfigurationError::MultipleVersions);
    }
    if features.contains(&19) {
        Ok(LLVMFeatures::LLVM19)
    } else if features.contains(&20) {
        Ok(LLVMFeatures::LLVM20)
    } else {
        Ok(LLVMFeatures::LLVM21)
    }
}

} // verus!
