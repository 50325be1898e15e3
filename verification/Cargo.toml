[package]
name = "ironclaw"
version = "0.1.0"
edition = "2021"
publish = false

[dependencies]
serde = { version = "*", features = ["derive"] }
serde_json = "=1.0.151"
anyhow = "*"
tokio = { version = "*", features = ["macros", "rt-multi-thread", "net", "fs"] }
axum = "*"
tower-http = { version = "*", features = ["trace"] }
tracing = "*"
tracing-subscriber = "*"
dotenvy = "*"
async-openai = "=0.28.3"
wasmtime = "=44.0.3"
wasmtime-wasi = "=44.0.3"
