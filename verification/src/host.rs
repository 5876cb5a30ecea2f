//! The host of a build, and what follows from it alone: where its system
//! libraries lie and which C++ standard library it links.

use crate::text::{decode_utf8_string, str_eq, trim, trimmed, views};
use vstd::prelude::*;
use vstd::string::*;
use vstd::utf8::*;

verus! {

/// The host of a build, as its environment describes it.
#[derive(Debug, Clone, PartialEq, Eq)]
pub struct HostEnv {
    /// The operating system, where the environment names one.
    pub target_os: Option<String>,
    /// The ABI environment, where the environment names one.
    pub target_env: Option<String>,
    /// The architecture.
    pub target_arch: String,
    /// Whether the C runtime is linked statically.
    pub crt_static: bool,
    /// The C++ standard library that the caller asks for, if any.
    pub libcpp: Option<String>,
}

/// `value` is there and equal to `name`.
pub open spec fn names(value: Option<String>, name: Seq<char>) -> bool {
    value matches Some(s) && s@ == name
}

impl HostEnv {
    /// The operating system of the host is `name`.
    pub open spec fn os_is(&self, name: Seq<char>) -> bool {
        names(self.target_os, name)
    }

    /// The ABI environment of the host is `name`.
    pub open spec fn env_is(&self, name: Seq<char>) -> bool {
        names(self.target_env, name)
    }

    /// The host uses the MSVC toolchain.
    pub open spec fn is_msvc(&self) -> bool {
        self.env_is("msvc"@)
    }

    /// The host runs macOS.
    pub open spec fn is_macos(&self) -> bool {
        self.os_is("macos"@)
    }
}

/// Whether the ABI environment of the host is `name`.
pub fn target_env_is(host: &HostEnv, name: &str) -> (r: bool)
    ensures
        r == host.env_is(name@),
{
    match &host.target_env {
        Some(s) => str_eq(s.as_str(), name),
        None => false,
    }
}

/// Whether the operating system of the host is `name`.
pub fn target_os_is(host: &HostEnv, name: &str) -> (r: bool)
    ensures
        r == host.os_is(name@),
{
    match &host.target_os {
        Some(s) => str_eq(s.as_str(), name),
        None => false,
    }
}

/// The C++ standard library that a program built on `host` links: the one
/// the caller asks for, if any; else none with MSVC, `c++` on macOS, FreeBSD
/// and OpenBSD, and `stdc++` everywhere else.
pub open spec fn system_libcpp(host: &HostEnv) -> Option<Seq<char>> {
    match host.libcpp {
        Some(asked) => Some(asked@),
        None => if host.is_msvc() {
            None
        } else if host.is_macos() || host.os_is("freebsd"@) || host.os_is("openbsd"@) {
            Some("c++"@)
        } else {
            Some("stdc++"@)
        },
    }
}

/// The C++ standard library to link on `host`, if it needs one named.
pub fn get_system_libcpp(host: &HostEnv) -> (r: Option<String>)
    ensures
        match r {
            Some(name) => system_libcpp(host) == Some(name@),
            None => system_libcpp(host) is None,
        },
{
    match &host.libcpp {
        Some(asked) => Some(asked.clone()),
        None => if target_env_is(host, "msvc") {
            None
        } else if target_os_is(host, "macos") {
            Some("c++".to_owned())
        } else if target_os_is(host, "freebsd") || target_os_is(host, "openbsd") {
            Some("c++".to_owned())
        } else {
            Some("stdc++".to_owned())
        },
    }
}

/// A standard library that the caller asks for is the one that is linked,
/// whatever the host.
pub proof fn lemma_asked_libcpp_wins(host: &HostEnv)
    requires
        host.libcpp is Some,
    ensures
        system_libcpp(host) == Some(host.libcpp->Some_0@),
{
}

/// Where the caller asks for none, a host that runs macOS, FreeBSD or
/// OpenBSD without the MSVC toolchain links `c++`, and every other host
/// without that toolchain links `stdc++`.
pub proof fn lemma_default_libcpp(host: &HostEnv)
    requires
        host.libcpp is None,
        !host.is_msvc(),
    ensures
        system_libcpp(host) == Some(
            if host.is_macos() || host.os_is("freebsd"@) || host.os_is("openbsd"@) {
                "c++"@
            } else {
                "stdc++"@
            },
        ),
{
}

/// The prefix that `brew --prefix` printed, `output` being its standard
/// output where the command ran: the text without the whitespace around it,
/// unless there is no output, or none that is UTF-8.
pub open spec fn brew_prefix(output: Option<Vec<u8>>) -> Option<Seq<char>> {
    match output {
        Some(bytes) if bytes@.len() > 0 && valid_utf8(bytes@) => Some(
            trimmed(decode_utf8(bytes@)),
        ),
        _ => None,
    }
}

/// The prefix under which Homebrew is installed, from what `brew --prefix`
/// printed; `None` for `output` where the command could not be run.
pub fn homebrew_prefix(output: Option<Vec<u8>>) -> (r: Option<String>)
    ensures
        match r {
            Some(prefix) => brew_prefix(output) == Some(prefix@),
            None => brew_prefix(output) is None,
        },
{
    match output {
        Some(bytes) => {
            if bytes.len() == 0 {
                return None;
            }
            match decode_utf8_string(bytes) {
                Some(text) => Some(trim(text.as_str())),
                None => None,
            }
        },
        None => None,
    }
}

/// The architectures whose system libraries lie in `lib64` directories.
pub open spec fn has_lib64(arch: Seq<char>) -> bool {
    arch == "x86_64"@ || arch == "powerpc64"@ || arch == "aarch64"@
}

/// The directories in which the linker is to look for system libraries.
///
/// On OpenBSD and FreeBSD that is `/usr/local/lib`; on macOS the `lib`
/// directory of Homebrew, where Homebrew is installed; on Linux, and only
/// when the C runtime is linked statically, the `lib64` directories of the
/// architectures that have them, followed by `/lib`, `/usr/lib` and
/// `/usr/local/lib`; elsewhere none.
pub open spec fn system_library_dirs(host: &HostEnv, homebrew: Option<Seq<char>>) -> Seq<
    Seq<char>,
> {
    if host.os_is("openbsd"@) || host.os_is("freebsd"@) {
        seq!["/usr/local/lib"@]
    } else if host.is_macos() {
        match homebrew {
            Some(prefix) => seq![prefix + "/lib"@],
            None => Seq::empty(),
        }
    } else if host.os_is("linux"@) && host.crt_static {
        let wide = if has_lib64(host.target_arch@) {
            seq!["/lib64"@, "/usr/lib64"@, "/usr/local/lib64"@]
        } else {
            Seq::empty()
        };
        wide + seq!["/lib"@, "/usr/lib"@, "/usr/local/lib"@]
    } else {
        Seq::empty()
    }
}

/// The directories in which the linker is to look for system libraries on
/// `host`. `brew_output` is what `brew --prefix` printed, which is read on
/// macOS only.
pub fn get_system_library_dirs(host: &HostEnv, brew_output: Option<Vec<u8>>) -> (dirs: Vec<String>)
    ensures
        views(dirs@) == system_library_dirs(host, brew_prefix(brew_output)),
{
    let mut dirs: Vec<String> = Vec::new();
    assert(views(dirs@) =~= Seq::<Seq<char>>::empty());
    if target_os_is(host, "openbsd") || target_os_is(host, "freebsd") {
        dirs.push("/usr/local/lib".to_owned());
        assert(views(dirs@) =~= seq!["/usr/local/lib"@]);
    } else if target_os_is(host, "macos") {
        if let Some(prefix) = homebrew_prefix(brew_output) {
            let mut dir = prefix;
            dir.append("/lib");
            dirs.push(dir);
            assert(views(dirs@) =~= seq![brew_prefix(brew_output)->Some_0 + "/lib"@]);
        }
    } else if target_os_is(host, "linux") && host.crt_static {
        let arch = host.target_arch.as_str();
        if str_eq(arch, "x86_64") || str_eq(arch, "powerpc64") || str_eq(arch, "aarch64") {
            dirs.push("/lib64".to_owned());
            dirs.push("/usr/lib64".to_owned());
            dirs.push("/usr/local/lib64".to_owned());
        }
        let ghost wide = views(dirs@);
        assert(wide =~= if has_lib64(host.target_arch@) {
            seq!["/lib64"@, "/usr/lib64"@, "/usr/local/lib64"@]
        } else {
            Seq::empty()
        });
        dirs.push("/lib".to_owned());
        dirs.push("/usr/lib".to_owned());
        dirs.push("/usr/local/lib".to_owned());
        assert(views(dirs@) =~= wide + seq!["/lib"@, "/usr/lib"@, "/usr/local/lib"@]);
    }
    dirs
}

} // verus!
