[package]
name = "boots_core"
version = "0.1.0"
edition = "2021"
publish = false

[dependencies]
toml_edit = "=0.22.27"
clap = { version = "=4.6.7", features = ["derive"] }
rust-embed = { version = "=8.13.0", features = ["interpolate-folder-path"] }
cargo-generate = { version = "=0.23.14", default-features = false }
# cargo-generate pulls kstring in; its 2.0.5 asks for rustc 1.96
kstring = "=2.0.2"
tracing = "=0.1.44"
tracing-subscriber = { version = "=0.3.23", features = ["env-filter", "json"] }

[dev-dependencies]
uuid = { version = "=1.29.0", features = ["v4"] }
