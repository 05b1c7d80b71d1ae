[package]
name = "canvas_editor"
version = "0.1.0"
edition = "2021"
publish = false

[dependencies]
base64 = "0.21"
imagesize = "0.12"
serde = { version = "1", features = ["derive"] }
serde_json = "1"
serde-wasm-bindgen = "0.6"
wasm-bindgen = "0.2"
js-sys = "0.3"
web-sys = { version = "0.3", features = ["Window", "Document", "Element", "HtmlElement", "MouseEvent", "KeyboardEvent", "InputEvent", "Event", "EventTarget", "HtmlInputElement", "FileList", "File", "console"] }
gloo = "0.11"
yew = { version = "0.21", features = ["csr"] }
