[package]
name = "emerald_backend"
version = "0.1.0"
edition = "2021"
publish = false

[dependencies]
llvm-sys = { version = "211", features = ["no-llvm-linking", "disable-alltargets-init"] }
thiserror = "1"
