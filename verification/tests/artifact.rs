use llvm_toolchain::arch::Arch;
use llvm_toolchain::artifact::{
    archive_url, artifact_dir_name, locate, plan, Action, ArtifactLocation,
};
use llvm_toolchain::meta::{BuildConfig, LLVMVersion, Target};
use llvm_toolchain::os::OS;

const TEMPLATE: &str = "https://example.test/{llvmVersion}-{os}-{arch}.zip";

fn linux() -> Target {
    Target::new(LLVMVersion::LLVM19, Arch::X86_64, OS::Linux)
}

fn all_targets() -> Vec<Target> {
    let mut all = Vec::new();
    for v in [LLVMVersion::LLVM19, LLVMVersion::LLVM20, LLVMVersion::LLVM21] {
        for a in [Arch::X86, Arch::X86_64, Arch::Arm, Arch::Arm64] {
            for o in [OS::Windows, OS::Linux, OS::MacOS] {
                all.push(Target::new(v, a, o));
            }
        }
    }
    all
}

#[test]
fn name_of_an_artifact() {
    assert_eq!(artifact_dir_name(&linux()), "llvm-19-linux-x86_64");
    assert_eq!(
        artifact_dir_name(&Target::new(LLVMVersion::LLVM21, Arch::Arm64, OS::MacOS)),
        "llvm-21-macos-arm64"
    );
    assert_eq!(
        artifact_dir_name(&Target::new(LLVMVersion::LLVM20, Arch::X86, OS::Windows)),
        "llvm-20-windows-x86"
    );
}

#[test]
fn place_of_an_artifact() {
    assert_eq!(
        locate(&linux()),
        ArtifactLocation {
            build_dir: ".build-llvm-19-linux-x86_64".to_string(),
            artifact: "llvm-19-linux-x86_64".to_string(),
            archive: "llvm-19-linux-x86_64.zip".to_string(),
        }
    );
}

#[test]
fn artifacts_of_different_targets_have_different_names() {
    let all = all_targets();
    assert_eq!(all.len(), 36);
    for (i, a) in all.iter().enumerate() {
        for (j, b) in all.iter().enumerate() {
            assert_eq!(i == j, artifact_dir_name(a) == artifact_dir_name(b));
        }
    }
}

#[test]
fn same_configuration_same_artifact() {
    let config = BuildConfig {
        llvm_19: false,
        llvm_20: true,
        llvm_21: false,
        target_arch: "aarch64".to_string(),
        target_os: "macos".to_string(),
    };
    let a = Target::get_current(&config).unwrap();
    let b = Target::get_current(&config.clone()).unwrap();
    assert_eq!(a, b);
    assert_eq!(locate(&a), locate(&b));
    assert_eq!(locate(&a).artifact, "llvm-20-macos-arm64");
}

#[test]
fn address_of_an_archive() {
    assert_eq!(archive_url(TEMPLATE, &linux()), "https://example.test/llvm-19-linux-x86_64.zip");
    assert_eq!(archive_url("https://h/fixed.zip", &linux()), "https://h/fixed.zip");
    assert_eq!(
        archive_url("{os}/{os}/{arch}{llvmVersion}", &linux()),
        "linux/linux/x86_64llvm-19"
    );
    assert_eq!(archive_url("{OS}-{ arch }", &linux()), "{OS}-{ arch }");
    assert_eq!(archive_url("", &linux()), "");
}

#[test]
fn build_of_a_missing_artifact() {
    let steps = plan(TEMPLATE, &linux(), false, true);
    let build_dir = ".build-llvm-19-linux-x86_64".to_string();
    let artifact = "llvm-19-linux-x86_64".to_string();
    let archive = "llvm-19-linux-x86_64.zip".to_string();
    assert_eq!(
        steps,
        vec![
            Action::Fetch {
                url: "https://example.test/llvm-19-linux-x86_64.zip".to_string(),
                build_dir: build_dir.clone(),
                archive: archive.clone(),
            },
            Action::Extract { build_dir: build_dir.clone(), archive },
            Action::SetPermissions { build_dir: build_dir.clone(), artifact: artifact.clone() },
            Action::Link { build_dir, artifact },
        ]
    );
    let fetches = steps.iter().filter(|s| matches!(s, Action::Fetch { .. })).count();
    assert_eq!(fetches, 1);
}

#[test]
fn build_of_a_cached_artifact() {
    let steps = plan(TEMPLATE, &linux(), true, true);
    let build_dir = ".build-llvm-19-linux-x86_64".to_string();
    let artifact = "llvm-19-linux-x86_64".to_string();
    assert_eq!(
        steps,
        vec![
            Action::SetPermissions { build_dir: build_dir.clone(), artifact: artifact.clone() },
            Action::Link { build_dir, artifact },
        ]
    );
    assert_eq!(steps, plan(TEMPLATE, &linux(), true, true));
    assert_eq!(plan(TEMPLATE, &linux(), false, true)[2..], steps[..]);
}

#[test]
fn build_on_a_host_that_is_not_posix() {
    let target = Target::new(LLVMVersion::LLVM21, Arch::X86_64, OS::Windows);
    let steps = plan(TEMPLATE, &target, true, false);
    assert_eq!(
        steps,
        vec![Action::Link {
            build_dir: ".build-llvm-21-windows-x86_64".to_string(),
            artifact: "llvm-21-windows-x86_64".to_string(),
        }]
    );
    assert_eq!(plan(TEMPLATE, &target, false, false).len(), 3);
}
