//! Resolution of a prebuilt LLVM toolchain for a target and the linker
//! directives that make a program link against it.

pub mod arch;
pub mod archive;
pub mod artifact;
pub mod directives;
pub mod error;
pub mod features;
pub mod host;
pub mod linking;
pub mod meta;
pub mod os;
pub mod permissions;
pub mod text;
pub mod tool;
