[package]
name = "serde_default"
version = "0.2.0"
edition = "2021"
publish = false

[dependencies]
darling = "=0.20.11"
proc-macro2 = "=1.0.107"
quote = "=1.0.47"
syn = { version = "=2.0.119", features = ["extra-traits"] }

[dev-dependencies]
proc-macro2 = { version = "=1.0.107", features = ["span-locations"] }
