//! The configuration tool of a toolchain: where it is found, what it is
//! asked, and when its answer counts.

use crate::error::ToolError;
use crate::text::decode_utf8_string;
use vstd::prelude::*;
use vstd::string::*;
use vstd::utf8::*;

verus! {

/// The number of names under which the tool may be installed.
pub const CANDIDATES: usize = 4;

/// The names under which the tool may be installed, in the order in which
/// they are tried: with a hyphen before an underscore, and without the
/// suffix of an executable before with it.
pub open spec fn candidate(i: int) -> Seq<char> {
    if i == 0 {
        "llvm-config"@
    } else if i == 1 {
        "llvm-config.exe"@
    } else if i == 2 {
        "llvm_config"@
    } else {
        "llvm_config.exe"@
    }
}

/// The names under which the tool may be installed, in the order in which
/// they are tried.
pub fn potential_names() -> (names: Vec<&'static str>)
    ensures
        names.len() == CANDIDATES,
        forall|i: int| 0 <= i < CANDIDATES ==> (#[trigger] names[i])@ == candidate(i),
{
    let mut names: Vec<&'static str> = Vec::new();
    names.push("llvm-config");
    names.push("llvm-config.exe");
    names.push("llvm_config");
    names.push("llvm_config.exe");
    names
}

/// The candidate at index `i` exists, going by `present`.
pub open spec fn is_present(present: Seq<bool>, i: int) -> bool {
    0 <= i < present.len() && present[i]
}

/// The first candidate that exists, `present` saying of each candidate, by
/// its index, whether it does. A candidate of which it says nothing counts
/// as missing.
pub open spec fn located(present: Seq<bool>) -> Result<Seq<char>, ToolError> {
    if exists|i: int| 0 <= i < CANDIDATES && is_present(present, i) {
        Ok(
            candidate(
                choose|i: int|
                    0 <= i < CANDIDATES && is_present(present, i) && forall|j: int|
                        0 <= j < i ==> !is_present(present, j),
            ),
        )
    } else {
        Err(ToolError::NotFound)
    }
}

/// The name of the configuration tool in a directory: the first of the
/// candidates that exists there. `present` says of each candidate, by its
/// index in [`potential_names`], whether it exists.
pub fn locate_llvm_config(present: &Vec<bool>) -> (r: Result<&'static str, ToolError>)
    ensures
        match r {
            Ok(name) => located(present@) == Ok::<Seq<char>, ToolError>(name@),
            Err(e) => located(present@) == Err::<Seq<char>, ToolError>(e),
        },
        r is Err <==> forall|i: int| 0 <= i < CANDIDATES ==> !is_present(present@, i),
{
    let names = potential_names();
    let mut i: usize = 0;
    while i < CANDIDATES
        invariant
            i <= CANDIDATES,
            names.len() == CANDIDATES,
            forall|k: int| 0 <= k < CANDIDATES ==> (#[trigger] names[k])@ == candidate(k),
            forall|j: int| 0 <= j < i ==> !is_present(present@, j),
        decreases CANDIDATES - i,
    {
        if i < present.len() && present[i] {
            proof {
                let first = i as int;
                assert(is_present(present@, first));
                let chosen = choose|c: int|
                    0 <= c < CANDIDATES && is_present(present@, c) && forall|j: int|
                        0 <= j < c ==> !is_present(present@, j);
                assert(chosen == first) by {
                    if chosen < first {
                        assert(!is_present(present@, chosen));
                    } else if first < chosen {
                        assert(!is_present(present@, first));
                    }
                }
            }
            return Ok(names[i]);
        }
        i += 1;
    }
    Err(ToolError::NotFound)
}

/// A question to the configuration tool.
#[derive(Debug, Clone, Copy, PartialEq, Eq, Hash, Structural)]
pub enum Query {
    /// Where the libraries of the toolchain lie.
    LibDir,
    /// The file names of the static libraries of the toolchain.
    LibNames,
    /// The system libraries that the toolchain depends on.
    SystemLibs,
}

impl Query {
    /// The arguments that put the question.
    pub open spec fn arguments(self) -> Seq<Seq<char>> {
        match self {
            Query::LibDir => seq!["--libdir"@],
            Query::LibNames => seq!["--libnames"@, "--link-static"@],
            Query::SystemLibs => seq!["--system-libs"@],
        }
    }

    /// The arguments with which the tool is run to put the question.
    pub fn args(self) -> (r: Vec<&'static str>)
        ensures
            r@.map_values(|s: &'static str| s@) == self.arguments(),
    {
        let mut r: Vec<&'static str> = Vec::new();
        match self {
            Query::LibDir => {
                r.push("--libdir");
            },
            Query::LibNames => {
                r.push("--libnames");
                r.push("--link-static");
            },
            Query::SystemLibs => {
                r.push("--system-libs");
            },
        }
        assert(r@.map_values(|s: &'static str| s@) =~= self.arguments());
        r
    }
}

/// The answer of a run of the tool: the text it printed, where the run
/// succeeded and the output is UTF-8.
pub open spec fn answer(success: bool, stdout: Seq<u8>) -> Result<Seq<char>, ToolError> {
    if !success {
        Err(ToolError::Failed)
    } else if !valid_utf8(stdout) {
        Err(ToolError::NotUtf8)
    } else {
        Ok(decode_utf8(stdout))
    }
}

/// The answer of a run of the configuration tool, from whether the run ended
/// in success and what it wrote to its standard output.
pub fn call_llvm_config(success: bool, stdout: Vec<u8>) -> (r: Result<String, ToolError>)
    ensures
        match r {
            Ok(text) => answer(success, stdout@) == Ok::<Seq<char>, ToolError>(text@),
            Err(e) => answer(success, stdout@) == Err::<Seq<char>, ToolError>(e),
        },
{
    if !success {
        return Err(ToolError::Failed);
    }
    match decode_utf8_string(stdout) {
        Some(text) => Ok(text),
        None => Err(ToolError::NotUtf8),
    }
}

} // verus!
