[package]
name = "function_executor"
version = "0.1.0"
edition = "2021"
publish = false

[dependencies]
anyhow = "=1.0.104"
deno_ast = { version = "=0.53.3", features = ["transpiling"] }
log = "=0.4.34"
reqwest = "=0.13.5"
serde_json = "=1.0.154"
tokio = { version = "=1.54.1", features = ["full"] }
url = "=2.5.8"
