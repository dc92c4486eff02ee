[package]
name = "whiskey"
version = "0.1.0"
edition = "2021"
publish = false

[dependencies]
clap = { version = "=4.6.7", features = ["derive"] }
serde = { version = "=1.0.229", features = ["derive"] }
tokio = { version = "=1.53.2", features = ["rt-multi-thread", "macros", "io-std", "sync"] }
toml = "=1.1.7"
tower-lsp = "=0.20.0"
tracing-subscriber = "=0.3.23"
uuid = { version = "=1.27.0", features = ["v4"] }
wasmer = "=7.4.2"
wasmer-compiler-cranelift = "=7.4.2"
wasmprinter = "=0.261.0"
