[package]
name = "asstosrt_core"
version = "0.1.0"
edition = "2021"
publish = false

[dependencies]
simplecc = { version = "=0.2.2", features = ["builtin_dicts"] }
chardet = "=0.2.4"
encoding = "=0.2.33"
