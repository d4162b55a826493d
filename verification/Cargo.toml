[package]
name = "messrust"
version = "0.1.0"
edition = "2021"
publish = false

[dependencies]
regex = "1"
proc-macro2 = { version = "1", features = ["span-locations"] }
syn = { version = "2", features = ["full", "visit", "extra-traits"] }
roxmltree = "*"
libc = "0.2"
serde = { version = "1", features = ["derive"] }
serde_json = "1"
walkdir = "2"
log = "0.4"
tokio = { version = "1", features = ["fs"] }
