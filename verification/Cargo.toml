[package]
name = "md_redpen"
version = "0.1.0"
edition = "2021"
publish = false

[dependencies]
pulldown-cmark = { version = "0.13", default-features = false }
unicode-segmentation = "1"
uuid = { version = "1", features = ["v7"] }
unicode-width = "0.2"
thiserror = "2"
clap = { version = "4", features = ["derive"] }
crossterm = "0.28"
ratatui = { version = "0.29", features = ["unstable-rendered-line-info"] }
atomic-write-file = "*"
fs2 = "0.4"
tempfile = "3"
command-group = "5"
wait-timeout = "0.2"

[dev-dependencies]
tempfile = "3"
