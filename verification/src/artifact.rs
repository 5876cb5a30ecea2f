//! The prebuilt artifact of a target: its name, where it is fetched from,
//! where it is kept, and the steps that bring it there.
//!
//! The cache is a directory tree that is kept from build to build. An
//! artifact counts as cached when its directory exists; whether the
//! directory is complete is not looked at, so an unpacking that was cut
//! short leaves a directory that has to be removed by hand. Nothing guards
//! the tree against two builds for the same target at the same time: a
//! caller that needs that takes a lock of its own around the build.

use crate::meta::{resolved, BuildConfig, Target};
use crate::text::{substitute, substituted};
use vstd::prelude::*;
use vstd::string::*;

verus! {

/// The name of the artifact of a target: version, operating system and
/// architecture, joined by hyphens.
pub open spec fn artifact_name(target: Target) -> Seq<char> {
    target.llvm_version.flag().name() + "-"@ + target.os.name() + "-"@ + target.arch.name()
}

/// The name of the directory in which the artifact of a target is kept.
pub open spec fn build_dir_name(target: Target) -> Seq<char> {
    ".build-"@ + artifact_name(target)
}

/// The name of the archive that holds the artifact of a target.
pub open spec fn archive_name(target: Target) -> Seq<char> {
    artifact_name(target) + ".zip"@
}

/// The address of the archive of a target: the template with each of the
/// placeholders `{llvmVersion}`, `{os}` and `{arch}` replaced, in that order,
/// by the target's name for it.
pub open spec fn url_of(template: Seq<char>, target: Target) -> Seq<char> {
    substituted(
        substituted(
            substituted(template, "{llvmVersion}"@, target.llvm_version.flag().name()),
            "{os}"@,
            target.os.name(),
        ),
        "{arch}"@,
        target.arch.name(),
    )
}

/// Where the artifact of a target is kept, relative to the root of the cache:
/// the artifact is the directory `artifact` in the directory `build_dir`, into
/// which the archive `archive` is downloaded.
#[derive(Debug, Clone, PartialEq, Eq)]
pub struct ArtifactLocation {
    pub build_dir: String,
    pub artifact: String,
    pub archive: String,
}

impl View for ArtifactLocation {
    type V = (Seq<char>, Seq<char>, Seq<char>);

    open spec fn view(&self) -> (Seq<char>, Seq<char>, Seq<char>) {
        (self.build_dir@, self.artifact@, self.archive@)
    }
}

/// The name of the artifact of `target`.
pub fn artifact_dir_name(target: &Target) -> (r: String)
    ensures
        r@ == artifact_name(*target),
{
    let mut r = target.llvm_version().feature().as_str().to_owned();
    r.append("-");
    r.append(target.os().as_str());
    r.append("-");
    r.append(target.arch().as_str());
    r
}

/// Where the artifact of `target` is kept.
pub fn locate(target: &Target) -> (location: ArtifactLocation)
    ensures
        location@ == (build_dir_name(*target), artifact_name(*target), archive_name(*target)),
{
    let artifact = artifact_dir_name(target);
    let mut build_dir = ".build-".to_owned();
    build_dir.append(artifact.as_str());
    let mut archive = artifact.clone();
    archive.append(".zip");
    ArtifactLocation { build_dir, artifact, archive }
}

/// The address from which the archive of `target` is fetched.
pub fn archive_url(template: &str, target: &Target) -> (url: String)
    ensures
        url@ == url_of(template@, *target),
{
    let with_version = substitute(
        template,
        "{llvmVersion}",
        target.llvm_version().feature().as_str(),
    );
    let with_os = substitute(with_version.as_str(), "{os}", target.os().as_str());
    substitute(with_os.as_str(), "{arch}", target.arch().as_str())
}

/// One step of bringing a toolchain into the build.
#[derive(Debug, Clone, PartialEq, Eq)]
pub enum Action {
    /// Download `url` to the file `archive` in the directory `build_dir`.
    Fetch { url: String, build_dir: String, archive: String },
    /// Unpack the file `archive` in the directory `build_dir` into that
    /// directory, then delete the file.
    Extract { build_dir: String, archive: String },
    /// Make the tools of the artifact `artifact` in `build_dir` executable.
    SetPermissions { build_dir: String, artifact: String },
    /// Ask the configuration tool of the artifact and emit the directives.
    Link { build_dir: String, artifact: String },
}

/// A step over views.
pub enum ActionView {
    Fetch { url: Seq<char>, build_dir: Seq<char>, archive: Seq<char> },
    Extract { build_dir: Seq<char>, archive: Seq<char> },
    SetPermissions { build_dir: Seq<char>, artifact: Seq<char> },
    Link { build_dir: Seq<char>, artifact: Seq<char> },
}

impl View for Action {
    type V = ActionView;

    open spec fn view(&self) -> ActionView {
        match self {
            Action::Fetch { url, build_dir, archive } => ActionView::Fetch {
                url: url@,
                build_dir: build_dir@,
                archive: archive@,
            },
            Action::Extract { build_dir, archive } => ActionView::Extract {
                build_dir: build_dir@,
                archive: archive@,
            },
            Action::SetPermissions { build_dir, artifact } => ActionView::SetPermissions {
                build_dir: build_dir@,
                artifact: artifact@,
            },
            Action::Link { build_dir, artifact } => ActionView::Link {
                build_dir: build_dir@,
                artifact: artifact@,
            },
        }
    }
}

/// The views of a sequence of steps, element by element.
pub open spec fn action_views(v: Seq<Action>) -> Seq<ActionView> {
    v.map_values(|a: Action| a@)
}

/// The steps of a build for `target`.
///
/// An artifact that is not in the cache is fetched and unpacked first. On a
/// POSIX host the tools are then made executable. The toolchain is linked
/// last.
pub open spec fn planned(template: Seq<char>, target: Target, cached: bool, posix: bool) -> Seq<
    ActionView,
> {
    let build_dir = build_dir_name(target);
    let artifact = artifact_name(target);
    let archive = archive_name(target);
    let acquire = if cached {
        Seq::empty()
    } else {
        seq![
            ActionView::Fetch { url: url_of(template, target), build_dir, archive },
            ActionView::Extract { build_dir, archive },
        ]
    };
    let permit = if posix {
        seq![ActionView::SetPermissions { build_dir, artifact }]
    } else {
        Seq::empty()
    };
    acquire + permit + seq![ActionView::Link { build_dir, artifact }]
}

/// The steps of a build for `target`, in order. `cached` says whether the
/// directory of the artifact exists, `posix` whether the host is a POSIX
/// system; `template` is the template of the archive's address.
pub fn plan(template: &str, target: &Target, cached: bool, posix: bool) -> (steps: Vec<Action>)
    ensures
        action_views(steps@) == planned(template@, *target, cached, posix),
{
    let location = locate(target);
    let mut steps: Vec<Action> = Vec::new();
    if !cached {
        steps.push(
            Action::Fetch {
                url: archive_url(template, target),
                build_dir: location.build_dir.clone(),
                archive: location.archive.clone(),
            },
        );
        steps.push(
            Action::Extract {
                build_dir: location.build_dir.clone(),
                archive: location.archive.clone(),
            },
        );
    }
    if posix {
        steps.push(
            Action::SetPermissions {
                build_dir: location.build_dir.clone(),
                artifact: location.artifact.clone(),
            },
        );
    }
    steps.push(Action::Link { build_dir: location.build_dir, artifact: location.artifact });
    assert(action_views(steps@) =~= planned(template@, *target, cached, posix));
    steps
}

/// A build whose artifact is cached fetches and unpacks nothing.
pub proof fn lemma_cached_build_fetches_nothing(
    template: Seq<char>,
    target: Target,
    posix: bool,
    i: int,
)
    requires
        0 <= i < planned(template, target, true, posix).len(),
    ensures
        !(planned(template, target, true, posix)[i] is Fetch),
        !(planned(template, target, true, posix)[i] is Extract),
{
}

/// A build whose artifact is missing starts by fetching the archive from the
/// address of the target and unpacking it where it was put, and fetches
/// nothing after that.
pub proof fn lemma_missing_artifact_is_fetched_once(
    template: Seq<char>,
    target: Target,
    posix: bool,
    i: int,
)
    requires
        0 <= i < planned(template, target, false, posix).len(),
    ensures
        planned(template, target, false, posix)[0] == (ActionView::Fetch {
            url: url_of(template, target),
            build_dir: build_dir_name(target),
            archive: archive_name(target),
        }),
        planned(template, target, false, posix)[1] == (ActionView::Extract {
            build_dir: build_dir_name(target),
            archive: archive_name(target),
        }),
        planned(template, target, false, posix)[i] is Fetch <==> i == 0,
{
}

/// What follows the acquisition of an artifact is the build of a cached one.
pub proof fn lemma_build_after_acquisition(template: Seq<char>, target: Target, posix: bool)
    ensures
        planned(template, target, false, posix).skip(2) == planned(template, target, true, posix),
        planned(template, target, true, posix).last() == (ActionView::Link {
            build_dir: build_dir_name(target),
            artifact: artifact_name(target),
        }),
{
    assert(planned(template, target, false, posix).skip(2) =~= planned(
        template,
        target,
        true,
        posix,
    ));
}

/// Resolution is a function of the configuration: configurations that say
/// the same resolve to the same target, or fail alike, and the artifact of
/// the target has the same name and the same place.
pub proof fn lemma_resolution_deterministic(a: BuildConfig, b: BuildConfig)
    requires
        a.llvm_19 == b.llvm_19,
        a.llvm_20 == b.llvm_20,
        a.llvm_21 == b.llvm_21,
        a.target_arch@ == b.target_arch@,
        a.target_os@ == b.target_os@,
    ensures
        resolved(a.llvm_19, a.llvm_20, a.llvm_21, a.target_arch@, a.target_os@) == resolved(
            b.llvm_19,
            b.llvm_20,
            b.llvm_21,
            b.target_arch@,
            b.target_os@,
        ),
        match (
            resolved(a.llvm_19, a.llvm_20, a.llvm_21, a.target_arch@, a.target_os@),
            resolved(b.llvm_19, b.llvm_20, b.llvm_21, b.target_arch@, b.target_os@),
        ) {
            (Ok(s), Ok(t)) => artifact_name(s) == artifact_name(t) && build_dir_name(s)
                == build_dir_name(t) && archive_name(s) == archive_name(t),
            (Err(e), Err(f)) => e == f,
            _ => false,
        },
{
}

/// Targets that differ have artifacts of different names, so no two targets
/// share a place in the cache.
pub proof fn lemma_artifact_names_differ(a: Target, b: Target)
    requires
        a != b,
    ensures
        artifact_name(a) != artifact_name(b),
{
    reveal_strlit("llvm-19");
    reveal_strlit("llvm-20");
    reveal_strlit("llvm-21");
    reveal_strlit("-");
    reveal_strlit("windows");
    reveal_strlit("linux");
    reveal_strlit("macos");
    reveal_strlit("x86");
    reveal_strlit("x86_64");
    reveal_strlit("arm");
    reveal_strlit("arm64");
    let x = artifact_name(a);
    let y = artifact_name(b);
    if x == y {
        assert(x[5] == y[5] && x[6] == y[6]);
        assert(a.llvm_version == b.llvm_version);
        assert(x[8] == y[8]);
        assert(a.os == b.os);
        let k: int = 9 + a.os.name().len() as int;
        assert(x.len() == y.len());
        assert(x[k] == y[k]);
        assert(a.arch == b.arch);
    }
}

} // verus!
