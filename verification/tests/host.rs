use llvm_toolchain::host::{
    get_system_libcpp, get_system_library_dirs, homebrew_prefix, target_env_is, target_os_is,
    HostEnv,
};

fn host(os: Option<&str>, env: Option<&str>) -> HostEnv {
    HostEnv {
        target_os: os.map(|s| s.to_string()),
        target_env: env.map(|s| s.to_string()),
        target_arch: "x86_64".to_string(),
        crt_static: false,
        libcpp: None,
    }
}

#[test]
fn host_descriptors_are_compared_by_name() {
    let h = host(Some("macos"), Some(""));
    assert!(target_os_is(&h, "macos"));
    assert!(!target_os_is(&h, "linux"));
    assert!(!target_env_is(&h, "msvc"));
    assert!(target_env_is(&h, ""));
    let n = host(None, None);
    assert!(!target_os_is(&n, "macos"));
    assert!(!target_os_is(&n, ""));
    assert!(!target_env_is(&n, "msvc"));
    assert!(target_env_is(&host(Some("windows"), Some("msvc")), "msvc"));
}

#[test]
fn standard_library_by_host() {
    assert_eq!(get_system_libcpp(&host(Some("macos"), None)), Some("c++".to_string()));
    assert_eq!(get_system_libcpp(&host(Some("freebsd"), None)), Some("c++".to_string()));
    assert_eq!(get_system_libcpp(&host(Some("openbsd"), None)), Some("c++".to_string()));
    assert_eq!(get_system_libcpp(&host(Some("linux"), Some("gnu"))), Some("stdc++".to_string()));
    assert_eq!(get_system_libcpp(&host(Some("windows"), Some("gnu"))), Some("stdc++".to_string()));
    assert_eq!(get_system_libcpp(&host(None, None)), Some("stdc++".to_string()));
    assert_eq!(get_system_libcpp(&host(Some("windows"), Some("msvc"))), None);
    assert_eq!(get_system_libcpp(&host(Some("macos"), Some("msvc"))), None);
}

#[test]
fn standard_library_override_always_wins() {
    for (os, env) in [("macos", ""), ("linux", "gnu"), ("windows", "msvc"), ("freebsd", "")] {
        let mut h = host(Some(os), Some(env));
        h.libcpp = Some("c++_static".to_string());
        assert_eq!(get_system_libcpp(&h), Some("c++_static".to_string()));
    }
    let mut h = host(None, None);
    h.libcpp = Some(String::new());
    assert_eq!(get_system_libcpp(&h), Some(String::new()));
}

#[test]
fn homebrew_prefix_is_the_trimmed_output() {
    assert_eq!(
        homebrew_prefix(Some(b"/opt/homebrew\n".to_vec())),
        Some("/opt/homebrew".to_string())
    );
    assert_eq!(homebrew_prefix(Some(b"  /usr/local \n".to_vec())), Some("/usr/local".to_string()));
    assert_eq!(homebrew_prefix(Some(b"\n".to_vec())), Some(String::new()));
    assert_eq!(homebrew_prefix(Some(Vec::new())), None);
    assert_eq!(homebrew_prefix(None), None);
    assert_eq!(homebrew_prefix(Some(vec![0x2F, 0xFF, 0xFE])), None);
    assert_eq!(
        homebrew_prefix(Some("/opt/hömebrew\n".as_bytes().to_vec())),
        Some("/opt/hömebrew".to_string())
    );
}

#[test]
fn library_directories_of_the_bsds() {
    for os in ["openbsd", "freebsd"] {
        assert_eq!(get_system_library_dirs(&host(Some(os), None), None), vec!["/usr/local/lib"]);
    }
}

#[test]
fn library_directories_of_macos() {
    let h = host(Some("macos"), None);
    assert_eq!(
        get_system_library_dirs(&h, Some(b"/opt/homebrew\n".to_vec())),
        vec!["/opt/homebrew/lib"]
    );
    assert!(get_system_library_dirs(&h, None).is_empty());
    assert!(get_system_library_dirs(&h, Some(Vec::new())).is_empty());
}

#[test]
fn library_directories_of_linux() {
    let mut h = host(Some("linux"), Some("gnu"));
    assert!(get_system_library_dirs(&h, None).is_empty());
    h.crt_static = true;
    assert_eq!(
        get_system_library_dirs(&h, None),
        vec!["/lib64", "/usr/lib64", "/usr/local/lib64", "/lib", "/usr/lib", "/usr/local/lib"]
    );
    for arch in ["aarch64", "powerpc64"] {
        h.target_arch = arch.to_string();
        assert_eq!(get_system_library_dirs(&h, None).len(), 6);
    }
    for arch in ["x86", "arm"] {
        h.target_arch = arch.to_string();
        assert_eq!(get_system_library_dirs(&h, None), vec!["/lib", "/usr/lib", "/usr/local/lib"]);
    }
    assert_eq!(
        get_system_library_dirs(&h, Some(b"/home/linuxbrew\n".to_vec())),
        vec!["/lib", "/usr/lib", "/usr/local/lib"]
    );
}

#[test]
fn library_directories_elsewhere() {
    let mut h = host(Some("windows"), Some("msvc"));
    h.crt_static = true;
    assert!(get_system_library_dirs(&h, Some(b"/opt/homebrew\n".to_vec())).is_empty());
    assert!(get_system_library_dirs(&host(None, None), None).is_empty());
}
