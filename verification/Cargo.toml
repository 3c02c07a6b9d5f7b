[package]
name = "brain_api"
version = "0.1.0"
edition = "2021"
publish = false

[dependencies]
anyhow = "=1.0.104"
async-trait = "=0.1.92"
chrono = "=0.4.45"
chrono-tz = "=0.10.4"
config = { version = "=0.15.27", default-features = false, features = ["toml"] }
futures = "=0.3.34"
http = "=1.5.0"
jiff = "=0.2.39"
pyo3 = "=0.29.3"
pyo3-async-runtimes = { version = "=0.29.0", features = ["tokio-runtime"] }
pythonize = "=0.29.0"
reqwest = { version = "=0.12.28", features = ["json", "cookies"] }
reqwest-middleware = { version = "=0.4.2", features = ["json"] }
rmcp = { version = "=3.8.0", features = ["server", "macros", "transport-io"] }
rpassword = "=7.5.4"
rust_decimal = "=1.43.0"
serde = { version = "=1.0.229", features = ["derive"] }
serde_json = "=1.0.154"
toasty = "=0.11.0"
tokio = { version = "=1.54.1", features = ["full"] }
tracing = "=0.1.44"
tracing-subscriber = "=0.3.23"
