[package]
name = "mygo_lint"
version = "0.1.0"
edition = "2021"
publish = false

[dependencies]
proc-macro2 = { version = "*", features = ["span-locations"] }
syn = { version = "*", features = ["full"] }
tokio = { version = "*", features = ["full"] }
tower-lsp = "*"
