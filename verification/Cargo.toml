[package]
name = "tezedge_snapshots"
version = "0.1.0"
edition = "2021"
publish = false

[dependencies]
bollard = "0.11"
chrono = "0.4"
clap = "2"
filetime = "0.2"
flate2 = "1"
fs_extra = "1"
reqwest = { version = "0.11", default-features = false, features = ["json"] }
serde = { version = "1", features = ["derive"] }
slog = "2"
slog-async = "2"
slog-term = "2"
tar = "0.4"
thiserror = "1"
tokio = { version = "1", features = ["macros", "rt-multi-thread", "signal", "time"] }
url = "2"
