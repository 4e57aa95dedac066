[package]
name = "amethyst_cli"
version = "0.1.0"
edition = "2021"
publish = false

[dependencies]
clap = { version = "4", features = ["derive"] }
color-eyre = "0.6"
colored = "2"
dirs = "5"
exitcode = "1"
semver = "1"
tokio = { version = "1", features = ["rt-multi-thread", "macros", "signal"] }
