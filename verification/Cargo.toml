[package]
name = "cargo_pkg_info_struct_builder"
version = "0.1.0"
edition = "2021"
publish = false

[dependencies]
chrono = "=0.4.45"
string-auto-indent = "=0.1.0"
toml = "=1.1.8"

[dev-dependencies]
syn = { version = "2", features = ["full"] }
