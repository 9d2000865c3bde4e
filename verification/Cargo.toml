[package]
name = "leptos_plausible"
version = "0.1.0"
edition = "2021"
publish = false

[dependencies]
rand = "0.8"
serde = { version = "1", features = ["derive"] }
serde_json = "1"
leptos = { version = "0.6", features = ["csr"] }
leptos_router = { version = "0.6", features = ["csr"] }
leptos-use = "0.13"
gloo-net = { version = "0.6", features = ["http"] }
wasm-bindgen = "0.2"
web-sys = { version = "0.3", features = ["Document", "DomStringMap", "Element", "Event", "EventTarget", "HtmlAnchorElement", "HtmlElement", "Location", "MouseEvent", "Navigator", "ReferrerPolicy", "RequestMode", "Window"] }
