[package]
name = "hudwiz"
version = "0.1.0"
edition = "2021"
publish = false

[dependencies]
anyhow = "1"
argon2 = { version = "=0.5.3", features = ["std"] }
async-trait = "0.1"
axum = { version = "=0.8.9", features = ["ws"] }
config = { version = "=0.15.27", default-features = false, features = ["toml", "json"] }
futures-channel = "0.3"
js-sys = "0.3"
log = "0.4"
oauth2 = "=4.4.2"
reqwest = { version = "=0.11.27", default-features = false, features = ["json", "rustls-tls"] }
serde = { version = "1", features = ["derive"] }
tokio = { version = "1", features = ["full"] }
tower-cookies = { version = "=0.11.0", features = ["signed", "private"] }
tower-http = { version = "=0.7.1", features = ["fs", "trace"] }
tower-sessions = "=0.15.0"
tracing = "0.1"
tracing-subscriber = { version = "0.3", features = ["env-filter"] }
uuid = { version = "=1.29.0", features = ["v4"] }
wasm-bindgen = "0.2"
wasm-bindgen-futures = "0.4"
web-sys = { version = "0.3", features = ["WebSocket", "MessageEvent", "ErrorEvent", "Window", "Document", "HtmlElement", "Element"] }
wtransport = "=0.7.2"
yew = { version = "=0.21.0", features = ["csr"] }
yew-webtransport = "=0.21.1"
