[package]
name = "llvm_obj"
version = "1.0.0"
edition = "2021"
publish = false

[dependencies]
llvm-sys = { version = "=140.1.3", features = ["force-dynamic"] }
