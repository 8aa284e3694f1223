[package]
name = "centaurus"
version = "0.1.0"
edition = "2021"
publish = false

[dependencies]
anyhow = "1"
chrono = "0.4"
either = "1"
fern = "*"
log = "0.4"
quinn = "*"
rcgen = "*"
rustler = "*"
tokio = { version = "1", features = ["macros", "rt-multi-thread", "sync", "time"] }
