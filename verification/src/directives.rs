//! The linker directives of a resolved toolchain, in the order in which a
//! linker has to see them.

use crate::error::{LibraryNameError, NameFault};
use crate::host::{brew_prefix, get_system_library_dirs, system_library_dirs, HostEnv};
use crate::linking::{
    get_link_libraries, get_system_libraries, link_libraries, system_libraries, token_views,
    RawLibToken,
};
use crate::text::{trim, trimmed, views};
use vstd::prelude::*;
use vstd::string::*;

verus! {

/// What a build needs to link against the toolchain.
#[derive(Debug, Clone, PartialEq, Eq)]
pub struct LinkConfig {
    /// The directory of the toolchain's static libraries.
    pub lib_dir: String,
    /// The static libraries of the toolchain, in link order.
    pub static_libs: Vec<String>,
    /// The directories of the host's system libraries.
    pub system_dirs: Vec<String>,
    /// The directories of the system libraries that were given as files.
    pub file_dirs: Vec<String>,
    /// The system libraries, in link order.
    pub system_libs: Vec<String>,
}

/// A link configuration over views.
pub struct LinkConfigView {
    pub lib_dir: Seq<char>,
    pub static_libs: Seq<Seq<char>>,
    pub system_dirs: Seq<Seq<char>>,
    pub file_dirs: Seq<Seq<char>>,
    pub system_libs: Seq<Seq<char>>,
}

impl View for LinkConfig {
    type V = LinkConfigView;

    open spec fn view(&self) -> LinkConfigView {
        LinkConfigView {
            lib_dir: self.lib_dir@,
            static_libs: views(self.static_libs@),
            system_dirs: views(self.system_dirs@),
            file_dirs: views(self.file_dirs@),
            system_libs: views(self.system_libs@),
        }
    }
}

/// The link configuration that the answers of the configuration tool give on
/// `host`: the library directory is the answer to `--libdir` without the
/// whitespace around it; a fault in a static library is reported before one
/// in a system library.
pub open spec fn link_config(
    libdir_output: Seq<char>,
    libnames_output: Seq<char>,
    system_tokens: Seq<RawLibToken>,
    host: &HostEnv,
    brew_output: Option<Vec<u8>>,
) -> Result<LinkConfigView, (NameFault, Seq<char>)> {
    match link_libraries(libnames_output) {
        Err(e) => Err(e),
        Ok(static_libs) => match system_libraries(token_views(system_tokens), host) {
            Err(e) => Err(e),
            Ok((system_libs, file_dirs)) => Ok(
                LinkConfigView {
                    lib_dir: trimmed(libdir_output),
                    static_libs,
                    system_dirs: system_library_dirs(host, brew_prefix(brew_output)),
                    file_dirs,
                    system_libs,
                },
            ),
        },
    }
}

/// The link configuration of a toolchain on `host`, from what its
/// configuration tool answered to `--libdir` and to `--libnames
/// --link-static`, the tokens of its answer to `--system-libs`, and what
/// `brew --prefix` printed.
pub fn resolve_link_config(
    libdir_output: &str,
    libnames_output: &str,
    system_tokens: &Vec<RawLibToken>,
    host: &HostEnv,
    brew_output: Option<Vec<u8>>,
) -> (r: Result<LinkConfig, LibraryNameError>)
    ensures
        match r {
            Ok(config) => link_config(
                libdir_output@,
                libnames_output@,
                system_tokens@,
                host,
                brew_output,
            ) == Ok::<LinkConfigView, (NameFault, Seq<char>)>(config@),
            Err(e) => link_config(
                libdir_output@,
                libnames_output@,
                system_tokens@,
                host,
                brew_output,
            ) == Err::<LinkConfigView, (NameFault, Seq<char>)>(e@),
        },
{
    let static_libs = match get_link_libraries(libnames_output) {
        Ok(names) => names,
        Err(e) => {
            return Err(e);
        },
    };
    let system = match get_system_libraries(system_tokens, host) {
        Ok(libraries) => libraries,
        Err(e) => {
            return Err(e);
        },
    };
    Ok(
        LinkConfig {
            lib_dir: trim(libdir_output),
            static_libs,
            system_dirs: get_system_library_dirs(host, brew_output),
            file_dirs: system.search_dirs,
            system_libs: system.names,
        },
    )
}

/// What a directive tells the linker to do.
#[derive(Debug, Clone, Copy, PartialEq, Eq, Hash, Structural)]
pub enum DirectiveKind {
    /// Search a directory for native libraries.
    SearchNative,
    /// Search a directory for libraries of any kind.
    Search,
    /// Link a library statically.
    LinkStatic,
    /// Link a library dynamically.
    LinkDynamic,
}

/// One directive: what to do, and the directory or library to do it with.
#[derive(Debug, Clone, PartialEq, Eq)]
pub struct Directive {
    pub kind: DirectiveKind,
    pub value: String,
}

impl View for Directive {
    type V = (DirectiveKind, Seq<char>);

    open spec fn view(&self) -> (DirectiveKind, Seq<char>) {
        (self.kind, self.value@)
    }
}

/// The views of a sequence of directives, element by element.
pub open spec fn directive_views(v: Seq<Directive>) -> Seq<(DirectiveKind, Seq<char>)> {
    v.map_values(|d: Directive| d@)
}

/// One directive of the given kind for each value, in order.
pub open spec fn each(kind: DirectiveKind, values: Seq<Seq<char>>) -> Seq<
    (DirectiveKind, Seq<char>),
> {
    values.map_values(|value: Seq<char>| (kind, value))
}

/// The directives of a link configuration: first the search path of the
/// toolchain's libraries, then one static link for each of them, then the
/// search paths of the system libraries, then one dynamic link for each
/// system library.
pub open spec fn directives(config: LinkConfigView) -> Seq<(DirectiveKind, Seq<char>)> {
    seq![(DirectiveKind::SearchNative, config.lib_dir)] + each(
        DirectiveKind::LinkStatic,
        config.static_libs,
    ) + each(DirectiveKind::SearchNative, config.system_dirs) + each(
        DirectiveKind::Search,
        config.file_dirs,
    ) + each(DirectiveKind::LinkDynamic, config.system_libs)
}

/// Every search path among the directives of a configuration comes before
/// every dynamic link.
pub proof fn lemma_search_paths_precede_dynamic_links(config: LinkConfigView, i: int, j: int)
    requires
        0 <= i < directives(config).len(),
        0 <= j < directives(config).len(),
        directives(config)[i].0 == DirectiveKind::SearchNative || directives(config)[i].0
            == DirectiveKind::Search,
        directives(config)[j].0 == DirectiveKind::LinkDynamic,
    ensures
        i < j,
{
}

/// The directives of a configuration are as many as its entries, and the
/// first is the search path of the toolchain's libraries.
pub proof fn lemma_directives_count(config: LinkConfigView)
    ensures
        directives(config).len() == 1 + config.static_libs.len() + config.system_dirs.len()
            + config.file_dirs.len() + config.system_libs.len(),
        directives(config)[0] == (DirectiveKind::SearchNative, config.lib_dir),
{
}

/// Adds one directive of the given kind for each value.
fn push_each(out: &mut Vec<Directive>, kind: DirectiveKind, values: &Vec<String>)
    ensures
        directive_views(final(out)@) == directive_views(old(out)@) + each(kind, views(values@)),
{
    assert(directive_views(out@) + each(kind, views(values@).take(0)) =~= directive_views(out@));
    for i in 0..values.len()
        invariant
            directive_views(out@) == directive_views(old(out)@) + each(
                kind,
                views(values@).take(i as int),
            ),
    {
        let ghost before = directive_views(out@);
        let value = values[i].clone();
        out.push(Directive { kind, value });
        proof {
            assert(directive_views(out@) =~= before.push((kind, values@[i as int]@)));
            assert(each(kind, views(values@).take(i + 1)) =~= each(
                kind,
                views(values@).take(i as int),
            ).push((kind, values@[i as int]@)));
        }
    }
    assert(views(values@).take(values.len() as int) =~= views(values@));
}

/// The directives that link a program against the toolchain of `config`.
pub fn link_llvm(config: &LinkConfig) -> (out: Vec<Directive>)
    ensures
        directive_views(out@) == directives(config@),
{
    let mut out: Vec<Directive> = Vec::new();
    out.push(Directive { kind: DirectiveKind::SearchNative, value: config.lib_dir.clone() });
    assert(directive_views(out@) =~= seq![(DirectiveKind::SearchNative, config.lib_dir@)]);
    push_each(&mut out, DirectiveKind::LinkStatic, &config.static_libs);
    push_each(&mut out, DirectiveKind::SearchNative, &config.system_dirs);
    push_each(&mut out, DirectiveKind::Search, &config.file_dirs);
    push_each(&mut out, DirectiveKind::LinkDynamic, &config.system_libs);
    out
}

impl Directive {
    /// The line that hands a directive to Cargo.
    pub open spec fn line(directive: (DirectiveKind, Seq<char>)) -> Seq<char> {
        match directive.0 {
            DirectiveKind::SearchNative => "cargo:rustc-link-search=native="@ + directive.1,
            DirectiveKind::Search => "cargo:rustc-link-search="@ + directive.1,
            DirectiveKind::LinkStatic => "cargo:rustc-link-lib=static="@ + directive.1,
            DirectiveKind::LinkDynamic => "cargo:rustc-link-lib=dylib="@ + directive.1,
        }
    }

    /// The line that hands this directive to Cargo.
    pub fn render(&self) -> (r: String)
        ensures
            r@ == Self::line(self@),
    {
        let mut r = match self.kind {
            DirectiveKind::SearchNative => "cargo:rustc-link-search=native=".to_owned(),
            DirectiveKind::Search => "cargo:rustc-link-search=".to_owned(),
            DirectiveKind::LinkStatic => "cargo:rustc-link-lib=static=".to_owned(),
            DirectiveKind::LinkDynamic => "cargo:rustc-link-lib=dylib=".to_owned(),
        };
        r.append(self.value.as_str());
        r
    }
}

} // verus!
