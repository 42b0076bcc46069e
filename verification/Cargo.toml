[package]
name = "terminal_core"
version = "0.1.0"
edition = "2021"
publish = false

[dependencies]
anyhow = "=1.0.104"
reqwest = { version = "=0.12.28", default-features = false, features = ["json"] }
serde = { version = "=1.0.229", features = ["derive"] }
tokio = { version = "=1.53.2", features = ["process", "io-util", "rt", "rt-multi-thread", "time", "sync", "macros"] }
wasmtime = { version = "=48.0.5", default-features = false, features = ["cranelift", "runtime", "wat"] }

[dev-dependencies]
wat = "=1.261.0"
