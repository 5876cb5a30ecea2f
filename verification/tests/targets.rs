use llvm_toolchain::arch::{get_current_arch, Arch, Backend};
use llvm_toolchain::error::ConfigurationError;
use llvm_toolchain::features::{get_current_llvm_feature, LLVMFeatures};
use llvm_toolchain::meta::{get_current_llvm_version, BuildConfig, LLVMVersion, Target};
use llvm_toolchain::os::{get_current_os, OS};

fn config(flags: (bool, bool, bool), arch: &str, os: &str) -> BuildConfig {
    BuildConfig {
        llvm_19: flags.0,
        llvm_20: flags.1,
        llvm_21: flags.2,
        target_arch: arch.to_string(),
        target_os: os.to_string(),
    }
}

#[test]
fn names_of_architectures() {
    assert_eq!(Arch::X86.as_str(), "x86");
    assert_eq!(Arch::X86_64.as_str(), "x86_64");
    assert_eq!(Arch::Arm.as_str(), "arm");
    assert_eq!(Arch::Arm64.as_str(), "arm64");
}

#[test]
fn names_of_operating_systems() {
    assert_eq!(OS::Windows.as_str(), "windows");
    assert_eq!(OS::Linux.as_str(), "linux");
    assert_eq!(OS::MacOS.as_str(), "macos");
}

#[test]
fn names_of_features() {
    assert_eq!(LLVMFeatures::LLVM19.as_str(), "llvm-19");
    assert_eq!(LLVMFeatures::LLVM20.as_str(), "llvm-20");
    assert_eq!(LLVMFeatures::LLVM21.as_str(), "llvm-21");
}

#[test]
fn versions_and_features_correspond() {
    assert_eq!(LLVMVersion::LLVM19.number(), 19);
    assert_eq!(LLVMVersion::LLVM20.number(), 20);
    assert_eq!(LLVMVersion::LLVM21.number(), 21);
    for v in [LLVMVersion::LLVM19, LLVMVersion::LLVM20, LLVMVersion::LLVM21] {
        assert_eq!(v.feature().version(), v);
    }
    assert_eq!(LLVMFeatures::LLVM20.version(), LLVMVersion::LLVM20);
}

#[test]
fn architecture_from_the_compilers_name() {
    assert_eq!(get_current_arch("x86"), Ok(Arch::X86));
    assert_eq!(get_current_arch("x86_64"), Ok(Arch::X86_64));
    assert_eq!(get_current_arch("aarch64"), Ok(Arch::Arm64));
    assert_eq!(get_current_arch("arm"), Ok(Arch::Arm));
    assert_eq!(get_current_arch("arm64"), Err(ConfigurationError::UnsupportedArch));
    assert_eq!(get_current_arch("riscv64"), Err(ConfigurationError::UnsupportedArch));
    assert_eq!(get_current_arch(""), Err(ConfigurationError::UnsupportedArch));
}

#[test]
fn operating_system_from_the_compilers_name() {
    assert_eq!(get_current_os("windows"), Ok(OS::Windows));
    assert_eq!(get_current_os("linux"), Ok(OS::Linux));
    assert_eq!(get_current_os("macos"), Ok(OS::MacOS));
    assert_eq!(get_current_os("freebsd"), Err(ConfigurationError::UnsupportedOs));
    assert_eq!(get_current_os("Linux"), Err(ConfigurationError::UnsupportedOs));
}

#[test]
fn exactly_one_version_must_be_selected() {
    assert_eq!(get_current_llvm_feature(true, false, false), Ok(LLVMFeatures::LLVM19));
    assert_eq!(get_current_llvm_feature(false, true, false), Ok(LLVMFeatures::LLVM20));
    assert_eq!(get_current_llvm_feature(false, false, true), Ok(LLVMFeatures::LLVM21));
    assert_eq!(get_current_llvm_feature(false, false, false), Err(ConfigurationError::NoVersion));
    for flags in [(true, true, false), (true, false, true), (false, true, true), (true, true, true)] {
        assert_eq!(
            get_current_llvm_feature(flags.0, flags.1, flags.2),
            Err(ConfigurationError::MultipleVersions)
        );
        assert_eq!(
            get_current_llvm_version(flags.0, flags.1, flags.2),
            Err(ConfigurationError::MultipleVersions)
        );
    }
    assert_eq!(get_current_llvm_version(false, false, true), Ok(LLVMVersion::LLVM21));
    assert_eq!(get_current_llvm_version(false, false, false), Err(ConfigurationError::NoVersion));
}

#[test]
fn target_keeps_its_parts() {
    let t = Target::new(LLVMVersion::LLVM20, Arch::Arm64, OS::MacOS);
    assert_eq!(t.llvm_version(), LLVMVersion::LLVM20);
    assert_eq!(t.arch(), Arch::Arm64);
    assert_eq!(t.os(), OS::MacOS);
}

#[test]
fn resolution_of_a_configuration() {
    let t = Target::get_current(&config((false, false, true), "aarch64", "linux")).unwrap();
    assert_eq!(t, Target::new(LLVMVersion::LLVM21, Arch::Arm64, OS::Linux));
    assert_eq!(
        Target::get_current(&config((false, false, false), "aarch64", "linux")),
        Err(ConfigurationError::NoVersion)
    );
    assert_eq!(
        Target::get_current(&config((true, true, false), "aarch64", "linux")),
        Err(ConfigurationError::MultipleVersions)
    );
    assert_eq!(
        Target::get_current(&config((true, false, false), "mips", "linux")),
        Err(ConfigurationError::UnsupportedArch)
    );
    assert_eq!(
        Target::get_current(&config((true, false, false), "x86", "solaris")),
        Err(ConfigurationError::UnsupportedOs)
    );
    assert_eq!(
        Target::get_current(&config((false, false, false), "mips", "solaris")),
        Err(ConfigurationError::NoVersion)
    );
    assert_eq!(
        Target::get_current(&config((true, false, false), "mips", "solaris")),
        Err(ConfigurationError::UnsupportedArch)
    );
}

#[test]
fn resolution_is_repeatable() {
    let c = config((false, true, false), "x86_64", "windows");
    let first = Target::get_current(&c);
    let second = Target::get_current(&c.clone());
    assert_eq!(first, second);
    assert_eq!(first, Ok(Target::new(LLVMVersion::LLVM20, Arch::X86_64, OS::Windows)));
}

#[test]
fn back_ends_of_architectures() {
    assert_eq!(Arch::X86.backend(), Backend::X86);
    assert_eq!(Arch::X86_64.backend(), Backend::X86);
    assert_eq!(Arch::Arm64.backend(), Backend::AArch64);
    assert_eq!(Arch::Arm.backend(), Backend::Arm);
}

#[test]
fn messages_of_configuration_errors() {
    assert_eq!(ConfigurationError::NoVersion.message(), "No [llvm-*] features specified.");
    assert_eq!(
        ConfigurationError::MultipleVersions.message(),
        "Multiple [llvm-*] features specified. Only one is allowed."
    );
    assert_eq!(ConfigurationError::UnsupportedArch.message(), "Unsupported architecture.");
    assert_eq!(ConfigurationError::UnsupportedOs.message(), "Unsupported OS.");
}
