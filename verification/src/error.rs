//! The errors of target resolution and of library-name mapping.

use vstd::prelude::*;
use vstd::string::*;

verus! {

/// Why a build configuration names no target.
#[derive(Debug, Clone, Copy, PartialEq, Eq, Hash, Structural)]
pub enum ConfigurationError {
    /// No LLVM version is selected.
    NoVersion,
    /// More than one LLVM version is selected.
    MultipleVersions,
    /// The architecture is none of the supported ones.
    UnsupportedArch,
    /// The operating system is none of the supported ones.
    UnsupportedOs,
}

impl ConfigurationError {
    /// The text of the message that describes the error.
    pub open spec fn text(self) -> Seq<char> {
        match self {
            ConfigurationError::NoVersion => "No [llvm-*] features specified."@,
            ConfigurationError::MultipleVersions =>
                "Multiple [llvm-*] features specified. Only one is allowed."@,
            ConfigurationError::UnsupportedArch => "Unsupported architecture."@,
            ConfigurationError::UnsupportedOs => "Unsupported OS."@,
        }
    }

    /// A message that describes the error.
    pub fn message(self) -> (r: &'static str)
        ensures
            r@ == self.text(),
    {
        match self {
            ConfigurationError::NoVersion => "No [llvm-*] features specified.",
            ConfigurationError::MultipleVersions =>
                "Multiple [llvm-*] features specified. Only one is allowed.",
            ConfigurationError::UnsupportedArch => "Unsupported architecture.",
            ConfigurationError::UnsupportedOs => "Unsupported OS.",
        }
    }
}

/// What is wrong with a token that should name a library.
#[derive(Debug, Clone, Copy, PartialEq, Eq, Hash, Structural)]
pub enum NameFault {
    /// The token has neither the shape `lib<name>.a` nor the shape `<name>.lib`.
    NotStaticLibrary,
    /// The file of a shared library has a name that does not start with `lib`.
    MissingLibPrefix,
    /// The token is neither a linker flag nor a library file that exists.
    Unparseable,
}

/// A token that names no library, with what is wrong with it.
#[derive(Debug, Clone, PartialEq, Eq)]
pub struct LibraryNameError {
    pub fault: NameFault,
    pub token: String,
}

impl View for LibraryNameError {
    type V = (NameFault, Seq<char>);

    open spec fn view(&self) -> (NameFault, Seq<char>) {
        (self.fault, self.token@)
    }
}

impl LibraryNameError {
    /// The text of the message that describes a fault in a token.
    pub open spec fn text(fault: NameFault, token: Seq<char>) -> Seq<char> {
        match fault {
            NameFault::NotStaticLibrary => "'"@ + token
                + "' does not look like a static library name"@,
            NameFault::MissingLibPrefix => "system library '"@ + token
                + "' does not have a 'lib' prefix"@,
            NameFault::Unparseable => "Unable to parse result of llvm-config --system-libs: "@
                + token,
        }
    }

    /// The error for `token` with the given fault.
    pub fn new(fault: NameFault, token: &str) -> (e: Self)
        ensures
            e@ == (fault, token@),
    {
        LibraryNameError { fault, token: token.to_owned() }
    }

    /// A message that describes the error and names the token.
    pub fn message(&self) -> (r: String)
        ensures
            r@ == Self::text(self.fault, self.token@),
    {
        match self.fault {
            NameFault::NotStaticLibrary => {
                let mut r = "'".to_owned();
                r.append(self.token.as_str());
                r.append("' does not look like a static library name");
                r
            },
            NameFault::MissingLibPrefix => {
                let mut r = "system library '".to_owned();
                r.append(self.token.as_str());
                r.append("' does not have a 'lib' prefix");
                r
            },
            NameFault::Unparseable => {
                let mut r = "Unable to parse result of llvm-config --system-libs: ".to_owned();
                r.append(self.token.as_str());
                r
            },
        }
    }
}

/// Why the configuration tool gave no text.
#[derive(Debug, Clone, Copy, PartialEq, Eq, Hash, Structural)]
pub enum ToolError {
    /// None of the names under which the tool may be installed exists.
    NotFound,
    /// The tool ended with a status other than success.
    Failed,
    /// What the tool printed is not UTF-8.
    NotUtf8,
}

} // verus!
