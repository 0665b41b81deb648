[package]
name = "edge_frame"
version = "0.1.0"
edition = "2021"
publish = false

[dependencies]
embedded-svc = "=0.28.1"
strum = "0.25"
enumset = "1"
log = "0.4"
yew = "=0.19.3"
yew-router = "=0.16.0"
web-sys = { version = "0.3", features = ["Event", "HtmlInputElement", "HtmlSelectElement"] }
wasm-bindgen-futures = "0.4"
