[package]
name = "unsafe_census"
version = "0.1.0"
edition = "2021"
publish = false

[dependencies]
syn = { version = "2", features = ["full", "visit"] }
proc-macro2 = "1"
serde = { version = "1", features = ["derive"] }
serde_json = "1"
anyhow = "1"
tokio = { version = "1", features = ["rt-multi-thread", "macros", "fs", "sync"] }
futures = "0.3"
futures-util = "0.3"
glob = "0.3"
reqwest = { version = "0.12", default-features = false, features = ["stream"] }
async-compression = { version = "0.4", features = ["tokio", "gzip"] }
tokio-util = { version = "0.7", features = ["io"] }
tokio-tar = "0.3"
crates-index = { version = "3", default-features = false, features = ["git", "parallel"] }
home = "0.5"
rayon = "1"
bitcode = "0.6"
clap = { version = "4", features = ["cargo"] }
tracing-subscriber = "0.3"
arrow = { version = "53", default-features = false }
parquet = { version = "53", default-features = false, features = ["arrow", "async"] }
serde_arrow = { version = "0.12", features = ["arrow-53"] }
