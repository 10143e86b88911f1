[package]
name = "rock_paper_scissors"
version = "0.1.0"
edition = "2021"
publish = false

[dependencies]
wasm-bindgen = "0.2"
js-sys = "0.3"
web-sys = { version = "0.3", features = ["Window", "Document", "Element", "HtmlElement", "EventTarget", "Node", "NodeList", "MouseEvent", "console"] }
console_error_panic_hook = "0.1"
