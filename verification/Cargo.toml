[package]
name = "llvm_toolchain"
version = "0.1.0"
edition = "2021"
publish = false

[dependencies]
zip = { version = "*", default-features = false, features = ["deflate"] }
reqwest = { version = "0.12", default-features = false, features = ["blocking", "rustls-tls"] }
llvm-sys = { version = "191", features = ["no-llvm-linking", "disable-alltargets-init"] }
