[package]
name = "mod_loader"
version = "0.1.0"
edition = "2021"
publish = false

[dependencies]
log = "=0.4.34"
pretty_env_logger = "=0.5.0"
serde_yaml = "=0.9.34"
wasmtime = { version = "=47.0.4", default-features = false, features = ["cranelift", "gc", "gc-copying", "gc-drc", "gc-null", "runtime", "stack-switching", "std", "threads", "wat"] }
