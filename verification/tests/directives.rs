use llvm_toolchain::directives::{
    link_llvm, resolve_link_config, Directive, DirectiveKind, LinkConfig,
};
use llvm_toolchain::error::{LibraryNameError, NameFault};
use llvm_toolchain::host::HostEnv;
use llvm_toolchain::linking::RawLibToken;

fn linux() -> HostEnv {
    HostEnv {
        target_os: Some("linux".to_string()),
        target_env: Some("gnu".to_string()),
        target_arch: "x86_64".to_string(),
        crt_static: true,
        libcpp: None,
    }
}

fn strings(v: &[&str]) -> Vec<String> {
    v.iter().map(|s| s.to_string()).collect()
}

#[test]
fn link_config_of_a_toolchain() {
    let tokens = vec![
        RawLibToken::flag("-lrt"),
        RawLibToken::file("/opt/z/libz.so.1", "/opt/z", "libz.so.1"),
    ];
    let config = resolve_link_config(
        "/cache/llvm-19-linux-x86_64/lib\n",
        "libLLVMCore.a libLLVMSupport.a\n",
        &tokens,
        &linux(),
        None,
    )
    .unwrap();
    assert_eq!(config.lib_dir, "/cache/llvm-19-linux-x86_64/lib");
    assert_eq!(config.static_libs, strings(&["LLVMCore", "LLVMSupport"]));
    assert_eq!(
        config.system_dirs,
        strings(&["/lib64", "/usr/lib64", "/usr/local/lib64", "/lib", "/usr/lib", "/usr/local/lib"])
    );
    assert_eq!(config.file_dirs, strings(&["/opt/z"]));
    assert_eq!(config.system_libs, strings(&["rt", "z", "stdc++"]));
}

#[test]
fn link_config_reports_a_static_fault_first() {
    let tokens = vec![RawLibToken::flag("???")];
    assert_eq!(
        resolve_link_config("/l", "core.dll", &tokens, &linux(), None),
        Err(LibraryNameError { fault: NameFault::NotStaticLibrary, token: "core.dll".to_string() })
    );
    assert_eq!(
        resolve_link_config("/l", "libcore.a", &tokens, &linux(), None),
        Err(LibraryNameError { fault: NameFault::Unparseable, token: "???".to_string() })
    );
}

#[test]
fn directives_come_in_link_order() {
    let config = LinkConfig {
        lib_dir: "/llvm/lib".to_string(),
        static_libs: strings(&["LLVMCore", "LLVMSupport"]),
        system_dirs: strings(&["/usr/local/lib"]),
        file_dirs: strings(&["/opt/z"]),
        system_libs: strings(&["rt", "z", "c++"]),
    };
    let d = |kind: DirectiveKind, value: &str| Directive { kind, value: value.to_string() };
    assert_eq!(
        link_llvm(&config),
        vec![
            d(DirectiveKind::SearchNative, "/llvm/lib"),
            d(DirectiveKind::LinkStatic, "LLVMCore"),
            d(DirectiveKind::LinkStatic, "LLVMSupport"),
            d(DirectiveKind::SearchNative, "/usr/local/lib"),
            d(DirectiveKind::Search, "/opt/z"),
            d(DirectiveKind::LinkDynamic, "rt"),
            d(DirectiveKind::LinkDynamic, "z"),
            d(DirectiveKind::LinkDynamic, "c++"),
        ]
    );
}

#[test]
fn directives_of_an_empty_configuration() {
    let config = LinkConfig {
        lib_dir: String::new(),
        static_libs: Vec::new(),
        system_dirs: Vec::new(),
        file_dirs: Vec::new(),
        system_libs: Vec::new(),
    };
    assert_eq!(
        link_llvm(&config),
        vec![Directive { kind: DirectiveKind::SearchNative, value: String::new() }]
    );
}

#[test]
fn search_paths_precede_dynamic_links() {
    let config = LinkConfig {
        lib_dir: "/l".to_string(),
        static_libs: strings(&["a"]),
        system_dirs: strings(&["/s1", "/s2"]),
        file_dirs: strings(&["/f"]),
        system_libs: strings(&["x", "y"]),
    };
    let all = link_llvm(&config);
    let last_search = all
        .iter()
        .rposition(|d| d.kind == DirectiveKind::SearchNative || d.kind == DirectiveKind::Search)
        .unwrap();
    let first_dynamic = all.iter().position(|d| d.kind == DirectiveKind::LinkDynamic).unwrap();
    assert!(last_search < first_dynamic);
    assert_eq!(all.len(), 7);
}

#[test]
fn directives_as_cargo_lines() {
    let d = |kind: DirectiveKind| Directive { kind, value: "v".to_string() }.render();
    assert_eq!(d(DirectiveKind::SearchNative), "cargo:rustc-link-search=native=v");
    assert_eq!(d(DirectiveKind::Search), "cargo:rustc-link-search=v");
    assert_eq!(d(DirectiveKind::LinkStatic), "cargo:rustc-link-lib=static=v");
    assert_eq!(d(DirectiveKind::LinkDynamic), "cargo:rustc-link-lib=dylib=v");
}
