[package]
name = "stock_vision"
version = "0.1.0"
edition = "2021"
publish = false

[dependencies]
chrono = { version = "=0.4.45", features = ["serde"] }
serde = { version = "=1.0.229", features = ["derive"] }
serde_json = "=1.0.154"
anyhow = "=1.0.104"
thiserror = "=2.0.21"
async-trait = "=0.1.92"
tokio = { version = "=1.54.1", features = ["rt-multi-thread", "macros", "sync", "time"] }
reqwest = { version = "=0.12.28", default-features = false, features = ["rustls-tls"] }
rusqlite = { version = "=0.41.1", features = ["bundled"] }
tracing = "=0.1.44"
tracing-subscriber = { version = "=0.3.23", features = ["env-filter"] }
directories-next = "=2.0.0"
iced = { version = "=0.14.0", default-features = false, features = ["tiny-skia", "canvas", "tokio", "x11"] }
plotters = { version = "=0.3.7", default-features = false, features = ["bitmap_backend", "chrono", "candlestick"] }
