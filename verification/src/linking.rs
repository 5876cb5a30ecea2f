//! From what `llvm-config` prints to the libraries to link against.
//!
//! The configuration tool names static libraries as files (`libLLVMCore.a`,
//! `LLVMCore.lib`) and system libraries as linker flags (`-lz`), with the
//! spellings of the host it was built on. The functions here turn each token
//! into the bare name that a linker takes. Which rule applies depends on the
//! host of the build.

use crate::error::{LibraryNameError, NameFault};
use crate::host::{get_system_libcpp, system_libcpp, target_env_is, target_os_is, HostEnv};
use crate::text::{
    before_first, first_match, split_whitespace, strip_prefix, strip_suffix, views,
    without_prefix, without_suffix, words,
};
use vstd::prelude::*;
use vstd::string::*;

verus! {

/// A library name, or the fault in the token and the token.
pub type NameOutcome = Result<Seq<char>, (NameFault, Seq<char>)>;

/// What a result says, over views.
pub open spec fn outcome(r: Result<String, LibraryNameError>) -> NameOutcome {
    match r {
        Ok(name) => Ok(name@),
        Err(e) => Err(e@),
    }
}

/// The name in a static library's file name: what stands between `lib` and
/// `.a`, or else what stands before `.lib`.
pub open spec fn static_lib_name(token: Seq<char>) -> Option<Seq<char>> {
    match strip_prefix(token, "lib"@) {
        Some(rest) if strip_suffix(rest, ".a"@) is Some => strip_suffix(rest, ".a"@),
        _ => strip_suffix(token, ".lib"@),
    }
}

/// The name of the static library whose file is called `lib`.
///
/// `libfoo.a` and `foo.lib` both name `foo`; a token of any other shape is
/// refused as no static library.
pub fn extract_lib_name(lib: &str) -> (r: Result<String, LibraryNameError>)
    ensures
        outcome(r) == match static_lib_name(lib@) {
            Some(name) => Ok::<Seq<char>, (NameFault, Seq<char>)>(name),
            None => Err((NameFault::NotStaticLibrary, lib@)),
        },
{
    if let Some(rest) = without_prefix(lib, "lib") {
        if let Some(name) = without_suffix(rest.as_str(), ".a") {
            return Ok(name);
        }
    }
    match without_suffix(lib, ".lib") {
        Some(name) => Ok(name),
        None => Err(LibraryNameError::new(NameFault::NotStaticLibrary, lib)),
    }
}

/// The library behind the name of a text-based stub: `lib<name>.tbd` stands
/// for `<name>`.
pub open spec fn stub_name(name: Seq<char>) -> Option<Seq<char>> {
    match strip_prefix(name, "lib"@) {
        Some(rest) => strip_suffix(rest, ".tbd"@),
        None => None,
    }
}

/// The library that a text-based stub file stands for, where `name` is the
/// name of one.
pub fn tbd_stub_name(name: &str) -> (r: Option<String>)
    ensures
        match r {
            Some(n) => stub_name(name@) == Some(n@),
            None => stub_name(name@) is None,
        },
{
    match without_prefix(name, "lib") {
        Some(rest) => without_suffix(rest.as_str(), ".tbd"),
        None => None,
    }
}

/// The library that a linker flag names, the flag given without its `-l`.
///
/// On macOS the name of a stub file stands for its library. Elsewhere, and for
/// other flags there, a soname loses its extension and version, from the
/// first `.so.` on.
pub open spec fn flag_library(flag: Seq<char>, macos: bool) -> Seq<char> {
    if macos && stub_name(flag) is Some {
        stub_name(flag)->Some_0
    } else {
        match first_match(flag, ".so."@) {
            Some(i) => flag.take(i),
            None => flag,
        }
    }
}

/// The library that the linker flag `-l<flag>` names on this kind of host.
pub fn library_of_flag(flag: &str, macos: bool) -> (r: String)
    ensures
        r@ == flag_library(flag@, macos),
{
    if macos {
        if let Some(name) = tbd_stub_name(flag) {
            return name;
        }
    }
    match before_first(flag, ".so.") {
        Some(name) => name,
        None => flag.to_owned(),
    }
}

/// The extension of a shared library's file on this kind of host.
pub open spec fn shared_extension(macos: bool) -> Seq<char> {
    if macos {
        ".dylib"@
    } else {
        ".so"@
    }
}

/// The library in a shared library's file name: what stands between `lib`
/// and the first occurrence of the host's extension, so that a version
/// behind the extension is dropped.
pub open spec fn shared_lib_name(file_name: Seq<char>, macos: bool) -> Result<
    Seq<char>,
    NameFault,
> {
    match first_match(file_name, shared_extension(macos)) {
        Some(i) => match strip_prefix(file_name.take(i), "lib"@) {
            Some(name) => Ok(name),
            None => Err(NameFault::MissingLibPrefix),
        },
        None => Err(NameFault::Unparseable),
    }
}

/// The library whose shared object is the file called `file_name`.
pub fn library_of_file(file_name: &str, macos: bool) -> (r: Result<String, NameFault>)
    ensures
        match r {
            Ok(name) => shared_lib_name(file_name@, macos) == Ok::<Seq<char>, NameFault>(name@),
            Err(fault) => shared_lib_name(file_name@, macos) == Err::<Seq<char>, NameFault>(
                fault,
            ),
        },
{
    let extension = if macos {
        ".dylib"
    } else {
        ".so"
    };
    match before_first(file_name, extension) {
        Some(stem) => match without_prefix(stem.as_str(), "lib") {
            Some(name) => Ok(name),
            None => Err(NameFault::MissingLibPrefix),
        },
        None => Err(NameFault::Unparseable),
    }
}

/// The file that a token names: the directory it lies in and its name there.
#[derive(Debug, Clone, PartialEq, Eq)]
pub struct LibraryFile {
    pub dir: String,
    pub file_name: String,
}

/// A token that the configuration tool printed for a system library,
/// together with the file it names, where it names a regular file that
/// exists.
#[derive(Debug, Clone, PartialEq, Eq)]
pub struct RawLibToken {
    pub text: String,
    pub file: Option<LibraryFile>,
}

/// A token as the mapping rules read it: its text and, where it names a
/// file, the directory and the name of that file.
pub struct TokenView {
    pub text: Seq<char>,
    pub file: Option<(Seq<char>, Seq<char>)>,
}

/// The view of a string that may be missing.
pub open spec fn option_view(s: Option<String>) -> Option<Seq<char>> {
    match s {
        Some(s) => Some(s@),
        None => None,
    }
}

/// The token with the given text that names the file `file_name` in `dir`,
/// where it is the path of a file and both are there, and no file otherwise.
pub open spec fn token_of(
    text: Seq<char>,
    is_file: bool,
    dir: Option<Seq<char>>,
    file_name: Option<Seq<char>>,
) -> TokenView {
    TokenView {
        text,
        file: match (dir, file_name) {
            (Some(dir), Some(file_name)) if is_file => Some((dir, file_name)),
            _ => None,
        },
    }
}

impl View for RawLibToken {
    type V = TokenView;

    open spec fn view(&self) -> TokenView {
        TokenView {
            text: self.text@,
            file: match self.file {
                Some(f) => Some((f.dir@, f.file_name@)),
                None => None,
            },
        }
    }
}

/// The directory that `path` lies in.
///
/// Calls `Path::parent`. How a path splits depends on the platform, so
/// nothing is claimed of the result.
#[verifier::external_body]
fn path_parent(path: &str) -> Option<String> {
    match std::path::Path::new(path).parent() {
        Some(dir) => Some(dir.to_string_lossy().into_owned()),
        None => None,
    }
}

/// The last component of `path`.
///
/// Calls `Path::file_name`. How a path splits depends on the platform, so
/// nothing is claimed of the result.
#[verifier::external_body]
fn path_file_name(path: &str) -> Option<String> {
    match std::path::Path::new(path).file_name() {
        Some(name) => Some(name.to_string_lossy().into_owned()),
        None => None,
    }
}

impl RawLibToken {
    /// The token `text`, which names no file.
    pub fn flag(text: &str) -> (t: Self)
        ensures
            t@ == (TokenView { text: text@, file: None }),
    {
        RawLibToken { text: text.to_owned(), file: None }
    }

    /// The token `text`, which names the file `file_name` in `dir`.
    pub fn file(text: &str, dir: &str, file_name: &str) -> (t: Self)
        ensures
            t@ == (TokenView { text: text@, file: Some((dir@, file_name@)) }),
    {
        RawLibToken {
            text: text.to_owned(),
            file: Some(LibraryFile { dir: dir.to_owned(), file_name: file_name.to_owned() }),
        }
    }

    /// The token `text`, which names the file `file_name` in `dir` where
    /// `is_file` says that it is the path of a regular file that exists and
    /// the path has both a directory and a file name, and no file otherwise.
    pub fn split(text: &str, is_file: bool, dir: Option<String>, file_name: Option<String>) -> (t:
        Self)
        ensures
            t@ == token_of(text@, is_file, option_view(dir), option_view(file_name)),
    {
        if !is_file {
            return RawLibToken::flag(text);
        }
        match (dir, file_name) {
            (Some(dir), Some(file_name)) => RawLibToken::file(
                text,
                dir.as_str(),
                file_name.as_str(),
            ),
            _ => RawLibToken::flag(text),
        }
    }

    /// The token `text`, `is_file` saying whether it is the path of a regular
    /// file that exists. The path of a file is split into its directory and
    /// its name as the platform splits paths, and the token is what
    /// [`RawLibToken::split`] makes of the two. How the path splits is not
    /// stated: it differs from platform to platform.
    pub fn probe(text: &str, is_file: bool) -> (t: Self)
        ensures
            t@.text == text@,
            !is_file ==> t@.file is None,
            exists|dir: Option<Seq<char>>, file_name: Option<Seq<char>>|
                t@ == token_of(text@, is_file, dir, file_name),
    {
        if !is_file {
            let t = RawLibToken::flag(text);
            assert(t@ == token_of(text@, is_file, None, None));
            return t;
        }
        let dir = path_parent(text);
        let file_name = path_file_name(text);
        let ghost dir_view = option_view(dir);
        let ghost name_view = option_view(file_name);
        let t = RawLibToken::split(text, is_file, dir, file_name);
        assert(t@ == token_of(text@, is_file, dir_view, name_view));
        t
    }
}

/// A system library to link, and the directory that the linker has to search
/// for it, where the library was given as a file.
#[derive(Debug, Clone, PartialEq, Eq)]
pub struct MappedLibrary {
    pub name: String,
    pub search_dir: Option<String>,
}

impl View for MappedLibrary {
    type V = (Seq<char>, Option<Seq<char>>);

    open spec fn view(&self) -> (Seq<char>, Option<Seq<char>>) {
        (
            self.name@,
            match self.search_dir {
                Some(dir) => Some(dir@),
                None => None,
            },
        )
    }
}

/// A mapped library, or the fault in the token and the text at fault.
pub type Mapping = Result<(Seq<char>, Option<Seq<char>>), (NameFault, Seq<char>)>;

/// What a result of mapping says, over views.
pub open spec fn mapping(r: Result<MappedLibrary, LibraryNameError>) -> Mapping {
    match r {
        Ok(library) => Ok(library@),
        Err(e) => Err(e@),
    }
}

/// The system library that a token names, by the first rule that applies:
///
/// 1. with the MSVC toolchain, the token is the file name of a static library;
/// 2. a token that starts with `-l` is a linker flag;
/// 3. a token that names a file is a shared library, to be found in the
///    directory of that file;
/// 4. anything else is a fault.
pub open spec fn mapped(token: TokenView, msvc: bool, macos: bool) -> Mapping {
    if msvc {
        match static_lib_name(token.text) {
            Some(name) => Ok((name, None)),
            None => Err((NameFault::NotStaticLibrary, token.text)),
        }
    } else {
        match strip_prefix(token.text, "-l"@) {
            Some(flag) => Ok((flag_library(flag, macos), None)),
            None => match token.file {
                Some((dir, file_name)) => match shared_lib_name(file_name, macos) {
                    Ok(name) => Ok((name, Some(dir))),
                    Err(NameFault::MissingLibPrefix) => Err(
                        (NameFault::MissingLibPrefix, file_name),
                    ),
                    Err(_) => Err((NameFault::Unparseable, token.text)),
                },
                None => Err((NameFault::Unparseable, token.text)),
            },
        }
    }
}

/// On a host without the MSVC toolchain, the flag `-l<name>` names the
/// library `<name>`, whether or not the token is also the path of a file,
/// where `<name>` holds no `.so.` and, on macOS, is not the name of a stub.
pub proof fn lemma_plain_flag_names_its_library(
    name: Seq<char>,
    file: Option<(Seq<char>, Seq<char>)>,
    macos: bool,
)
    requires
        first_match(name, ".so."@) is None,
        macos ==> stub_name(name) is None,
    ensures
        mapped(TokenView { text: "-l"@ + name, file }, false, macos) == Ok::<
            (Seq<char>, Option<Seq<char>>),
            (NameFault, Seq<char>),
        >((name, None)),
{
    let text = "-l"@ + name;
    assert(text.subrange(0, "-l"@.len() as int) =~= "-l"@);
    assert(text.skip("-l"@.len() as int) =~= name);
}

/// On a host without the MSVC toolchain, a token that is neither a linker
/// flag nor the path of a file is refused, and the error names the token.
pub proof fn lemma_neither_flag_nor_file_is_refused(text: Seq<char>, macos: bool)
    requires
        !"-l"@.is_prefix_of(text),
    ensures
        mapped(TokenView { text, file: None }, false, macos) == Err::<
            (Seq<char>, Option<Seq<char>>),
            (NameFault, Seq<char>),
        >((NameFault::Unparseable, text)),
{
}

/// The system library that `token` names on `host`.
pub fn map_system_library(token: &RawLibToken, host: &HostEnv) -> (r: Result<
    MappedLibrary,
    LibraryNameError,
>)
    ensures
        mapping(r) == mapped(token@, host.is_msvc(), host.is_macos()),
{
    let text = token.text.as_str();
    if target_env_is(host, "msvc") {
        return match extract_lib_name(text) {
            Ok(name) => Ok(MappedLibrary { name, search_dir: None }),
            Err(e) => Err(e),
        };
    }
    let macos = target_os_is(host, "macos");
    if let Some(flag) = without_prefix(text, "-l") {
        return Ok(MappedLibrary { name: library_of_flag(flag.as_str(), macos), search_dir: None });
    }
    if let Some(file) = &token.file {
        match library_of_file(file.file_name.as_str(), macos) {
            Ok(name) => {
                return Ok(MappedLibrary { name, search_dir: Some(file.dir.clone()) });
            },
            Err(NameFault::MissingLibPrefix) => {
                return Err(
                    LibraryNameError::new(NameFault::MissingLibPrefix, file.file_name.as_str()),
                );
            },
            Err(_) => {},
        }
    }
    Err(LibraryNameError::new(NameFault::Unparseable, text))
}

/// The items of a sequence of results, or the first of its errors.
pub open spec fn collect<T, E>(results: Seq<Result<T, E>>) -> Result<Seq<T>, E>
    decreases results.len(),
{
    if results.len() == 0 {
        Ok(Seq::empty())
    } else {
        match collect(results.drop_last()) {
            Err(e) => Err(e),
            Ok(items) => match results.last() {
                Ok(item) => Ok(items.push(item)),
                Err(e) => Err(e),
            },
        }
    }
}

/// `collect` succeeds exactly when every result is a success, and then gives
/// the items in order; it fails with the error that no other error precedes.
pub proof fn lemma_collect<T, E>(results: Seq<Result<T, E>>)
    ensures
        match collect(results) {
            Ok(items) => {
                &&& items.len() == results.len()
                &&& forall|i: int|
                    0 <= i < results.len() ==> #[trigger] results[i] == Ok::<T, E>(items[i])
            },
            Err(e) => exists|i: int|
                {
                    &&& 0 <= i < results.len()
                    &&& #[trigger] results[i] == Err::<T, E>(e)
                    &&& forall|j: int| 0 <= j < i ==> #[trigger] results[j] is Ok
                },
        },
    decreases results.len(),
{
    if results.len() > 0 {
        let front = results.drop_last();
        lemma_collect(front);
        match collect(front) {
            Err(e) => {
                let i = choose|i: int|
                    {
                        &&& 0 <= i < front.len()
                        &&& #[trigger] front[i] == Err::<T, E>(e)
                        &&& forall|j: int| 0 <= j < i ==> #[trigger] front[j] is Ok
                    };
                assert(results[i] == front[i]);
                assert forall|j: int| 0 <= j < i implies #[trigger] results[j] is Ok by {
                    assert(results[j] == front[j]);
                }
            },
            Ok(items) => {
                let last = results.len() - 1;
                match results.last() {
                    Ok(item) => {
                        let all = items.push(item);
                        assert forall|i: int| 0 <= i < results.len() implies #[trigger] results[i]
                            == Ok::<T, E>(all[i]) by {
                            if i < last {
                                assert(results[i] == front[i]);
                            }
                        }
                    },
                    Err(e) => {
                        assert(results[last] == Err::<T, E>(e));
                        assert forall|j: int| 0 <= j < last implies #[trigger] results[j] is Ok by {
                            assert(results[j] == front[j]);
                        }
                    },
                }
            },
        }
    }
}

/// An error among the first `k` results is the error of the whole.
pub proof fn lemma_collect_prefix_error<T, E>(results: Seq<Result<T, E>>, k: int)
    requires
        0 <= k <= results.len(),
        collect(results.take(k)) is Err,
    ensures
        collect(results) == collect(results.take(k)),
    decreases results.len() - k,
{
    if k < results.len() {
        let front = results.drop_last();
        assert(front.take(k) =~= results.take(k));
        lemma_collect_prefix_error(front, k);
    } else {
        assert(results.take(k) =~= results);
    }
}

/// The static library that a token names, or the fault in it.
pub open spec fn static_library(token: Seq<char>) -> NameOutcome {
    match static_lib_name(token) {
        Some(name) => Ok(name),
        None => Err((NameFault::NotStaticLibrary, token)),
    }
}

/// The static libraries that the words of `output` name, in order, or the
/// fault in the first word that names none.
pub open spec fn link_libraries(output: Seq<char>) -> Result<
    Seq<Seq<char>>,
    (NameFault, Seq<char>),
> {
    collect(words(output).map_values(|token: Seq<char>| static_library(token)))
}

/// The static libraries to link, from what `llvm-config --libnames
/// --link-static` printed.
pub fn get_link_libraries(output: &str) -> (r: Result<Vec<String>, LibraryNameError>)
    ensures
        match r {
            Ok(names) => link_libraries(output@) == Ok::<Seq<Seq<char>>, (NameFault, Seq<char>)>(
                views(names@),
            ),
            Err(e) => link_libraries(output@) == Err::<Seq<Seq<char>>, (NameFault, Seq<char>)>(
                e@,
            ),
        },
{
    let tokens = split_whitespace(output);
    let ghost results = words(output@).map_values(|token: Seq<char>| static_library(token));
    let mut names: Vec<String> = Vec::new();
    assert(results.take(0) =~= Seq::empty());
    assert(views(names@) =~= Seq::empty());
    for i in 0..tokens.len()
        invariant
            views(tokens@) == words(output@),
            results == words(output@).map_values(|token: Seq<char>| static_library(token)),
            collect(results.take(i as int)) == Ok::<Seq<Seq<char>>, (NameFault, Seq<char>)>(
                views(names@),
            ),
    {
        let ghost before = views(names@);
        proof {
            assert(results.take(i + 1).drop_last() =~= results.take(i as int));
            assert(results.take(i + 1).last() == static_library(views(tokens@)[i as int]));
        }
        match extract_lib_name(tokens[i].as_str()) {
            Ok(name) => {
                names.push(name);
                assert(views(names@) =~= before.push(name@));
            },
            Err(e) => {
                proof {
                    lemma_collect_prefix_error(results, i + 1);
                }
                return Err(e);
            },
        }
    }
    assert(results.take(tokens.len() as int) =~= results);
    Ok(names)
}

/// The system libraries to link and the directories to search for them.
#[derive(Debug, Clone, PartialEq, Eq)]
pub struct SystemLibraries {
    /// The names of the libraries, in the order in which they are linked.
    pub names: Vec<String>,
    /// The directories of the libraries that were given as files.
    pub search_dirs: Vec<String>,
}

/// The directories of those libraries that have one, in order.
pub open spec fn recorded_dirs(libraries: Seq<(Seq<char>, Option<Seq<char>>)>) -> Seq<Seq<char>>
    decreases libraries.len(),
{
    if libraries.len() == 0 {
        Seq::empty()
    } else {
        let front = recorded_dirs(libraries.drop_last());
        match libraries.last().1 {
            Some(dir) => front.push(dir),
            None => front,
        }
    }
}

/// The views of a sequence of tokens, element by element.
pub open spec fn token_views(tokens: Seq<RawLibToken>) -> Seq<TokenView> {
    tokens.map_values(|t: RawLibToken| t@)
}

/// The C++ standard library of the host as a list of libraries.
pub open spec fn libcpp_entry(host: &HostEnv) -> Seq<Seq<char>> {
    match system_libcpp(host) {
        Some(name) => seq![name],
        None => Seq::empty(),
    }
}

/// The system libraries that the tokens name on `host`, followed by the C++
/// standard library of the host, and the directories of those given as
/// files; or the fault in the first token that names none.
pub open spec fn system_libraries(tokens: Seq<TokenView>, host: &HostEnv) -> Result<
    (Seq<Seq<char>>, Seq<Seq<char>>),
    (NameFault, Seq<char>),
> {
    match collect(
        tokens.map_values(|t: TokenView| mapped(t, host.is_msvc(), host.is_macos())),
    ) {
        Ok(libraries) => Ok(
            (
                libraries.map_values(|l: (Seq<char>, Option<Seq<char>>)| l.0) + libcpp_entry(host),
                recorded_dirs(libraries),
            ),
        ),
        Err(e) => Err(e),
    }
}

/// The system libraries to link on `host`, from the tokens that
/// `llvm-config --system-libs` printed.
///
/// The tool does not report the C++ standard library, so the one of the host
/// is appended.
pub fn get_system_libraries(tokens: &Vec<RawLibToken>, host: &HostEnv) -> (r: Result<
    SystemLibraries,
    LibraryNameError,
>)
    ensures
        match r {
            Ok(libraries) => system_libraries(token_views(tokens@), host) == Ok::<
                (Seq<Seq<char>>, Seq<Seq<char>>),
                (NameFault, Seq<char>),
            >((views(libraries.names@), views(libraries.search_dirs@))),
            Err(e) => system_libraries(token_views(tokens@), host) == Err::<
                (Seq<Seq<char>>, Seq<Seq<char>>),
                (NameFault, Seq<char>),
            >(e@),
        },
{
    let ghost results = token_views(tokens@).map_values(
        |t: TokenView| mapped(t, host.is_msvc(), host.is_macos()),
    );
    let ghost mut libraries: Seq<(Seq<char>, Option<Seq<char>>)> = Seq::empty();
    let mut names: Vec<String> = Vec::new();
    let mut search_dirs: Vec<String> = Vec::new();
    proof {
        assert(results.take(0) =~= Seq::empty());
        assert(views(names@) =~= libraries.map_values(|l: (Seq<char>, Option<Seq<char>>)| l.0));
        assert(views(search_dirs@) =~= recorded_dirs(libraries));
    }
    for i in 0..tokens.len()
        invariant
            results == token_views(tokens@).map_values(
                |t: TokenView| mapped(t, host.is_msvc(), host.is_macos()),
            ),
            collect(results.take(i as int)) == Ok::<
                Seq<(Seq<char>, Option<Seq<char>>)>,
                (NameFault, Seq<char>),
            >(libraries),
            views(names@) == libraries.map_values(|l: (Seq<char>, Option<Seq<char>>)| l.0),
            views(search_dirs@) == recorded_dirs(libraries),
    {
        let ghost names_before = views(names@);
        let ghost dirs_before = views(search_dirs@);
        proof {
            assert(results.take(i + 1).drop_last() =~= results.take(i as int));
            assert(results.take(i + 1).last() == mapped(
                tokens@[i as int]@,
                host.is_msvc(),
                host.is_macos(),
            ));
        }
        match map_system_library(&tokens[i], host) {
            Ok(library) => {
                proof {
                    let grown = libraries.push(library@);
                    assert(grown.drop_last() =~= libraries);
                    assert(grown.map_values(|l: (Seq<char>, Option<Seq<char>>)| l.0)
                        =~= names_before.push(library.name@));
                    libraries = grown;
                }
                names.push(library.name);
                assert(views(names@) =~= names_before.push(library.name@));
                match library.search_dir {
                    Some(dir) => {
                        search_dirs.push(dir);
                        assert(views(search_dirs@) =~= dirs_before.push(dir@));
                    },
                    None => {},
                }
            },
            Err(e) => {
                proof {
                    lemma_collect_prefix_error(results, i + 1);
                }
                return Err(e);
            },
        }
    }
    assert(results.take(tokens.len() as int) =~= results);
    let ghost mapped_names = views(names@);
    if let Some(libcpp) = get_system_libcpp(host) {
        names.push(libcpp);
        assert(views(names@) =~= mapped_names + seq![libcpp@]);
    } else {
        assert(views(names@) =~= mapped_names + Seq::<Seq<char>>::empty());
    }
    Ok(SystemLibraries { names, search_dirs })
}

} // verus!
