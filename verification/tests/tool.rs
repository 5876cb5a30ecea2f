use llvm_toolchain::error::ToolError;
use llvm_toolchain::tool::{call_llvm_config, locate_llvm_config, potential_names, Query};

#[test]
fn candidates_in_the_order_of_trial() {
    assert_eq!(
        potential_names(),
        vec!["llvm-config", "llvm-config.exe", "llvm_config", "llvm_config.exe"]
    );
}

#[test]
fn the_first_candidate_that_exists_is_taken() {
    assert_eq!(locate_llvm_config(&vec![true, true, true, true]), Ok("llvm-config"));
    assert_eq!(locate_llvm_config(&vec![false, true, false, true]), Ok("llvm-config.exe"));
    assert_eq!(locate_llvm_config(&vec![false, false, true, true]), Ok("llvm_config"));
    assert_eq!(locate_llvm_config(&vec![false, false, false, true]), Ok("llvm_config.exe"));
}

#[test]
fn no_candidate_exists() {
    assert_eq!(locate_llvm_config(&vec![false, false, false, false]), Err(ToolError::NotFound));
    assert_eq!(locate_llvm_config(&Vec::new()), Err(ToolError::NotFound));
    assert_eq!(locate_llvm_config(&vec![false, false]), Err(ToolError::NotFound));
    assert_eq!(
        locate_llvm_config(&vec![false, false, false, false, true]),
        Err(ToolError::NotFound)
    );
    assert_eq!(locate_llvm_config(&vec![false, true]), Ok("llvm-config.exe"));
}

#[test]
fn arguments_of_the_queries() {
    assert_eq!(Query::LibDir.args(), vec!["--libdir"]);
    assert_eq!(Query::LibNames.args(), vec!["--libnames", "--link-static"]);
    assert_eq!(Query::SystemLibs.args(), vec!["--system-libs"]);
}

#[test]
fn answer_of_a_run() {
    assert_eq!(call_llvm_config(true, b"/llvm/lib\n".to_vec()), Ok("/llvm/lib\n".to_string()));
    assert_eq!(call_llvm_config(true, Vec::new()), Ok(String::new()));
    assert_eq!(call_llvm_config(true, "-lß".as_bytes().to_vec()), Ok("-lß".to_string()));
    assert_eq!(call_llvm_config(false, b"/llvm/lib\n".to_vec()), Err(ToolError::Failed));
    assert_eq!(call_llvm_config(true, vec![0x2D, 0x6C, 0xC3]), Err(ToolError::NotUtf8));
    assert_eq!(call_llvm_config(false, vec![0xFF]), Err(ToolError::Failed));
}
