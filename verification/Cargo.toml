[package]
name = "rdp_session"
version = "0.1.0"
edition = "2021"
publish = false

[dependencies]
anyhow = "1"
base64 = "0.22"
futures-channel = "0.3"
futures-rustls = { version = "0.26", default-features = false, features = ["ring"] }
futures-util = { version = "0.3", features = ["io", "sink"] }
ironrdp = { version = "*", features = ["connector", "session", "input", "graphics", "dvc", "svc", "cliprdr", "displaycontrol", "pdu", "core"] }
ironrdp-core = "*"
ironrdp-futures = "*"
js-sys = "0.3"
png = "0.17"
resize = "0.8"
rgb = "0.8"
rustls = { version = "0.23", default-features = false, features = ["std", "ring"] }
semver = "1"
serde = { version = "1", features = ["derive"] }
serde-wasm-bindgen = "0.6"
smallvec = "1"
tap = "1"
tracing = "0.1"
url = "2"
wasm-bindgen = "0.2"
wasm-bindgen-futures = "0.4"
web-sys = { version = "0.3", features = ["HtmlCanvasElement", "MessageEvent", "RtcDataChannel"] }
x509-cert = "0.2"
