[package]
name = "chalk"
version = "0.1.0"
edition = "2021"
publish = false

[dependencies]
leptos = { version = "0.8", features = ["csr"] }
wasm-bindgen = "0.2"
rand = "0.9"
serde = { version = "1", features = ["derive"] }
web-sys = { version = "0.3", features = ["Window", "Document", "Element", "HtmlElement", "HtmlHeadElement", "Node", "NodeList", "MediaQueryList", "KeyboardEvent", "MouseEvent", "PointerEvent", "WheelEvent", "Event", "EventTarget", "HtmlInputElement", "HtmlTextAreaElement", "HtmlCanvasElement", "CanvasRenderingContext2d", "OffscreenCanvas", "OffscreenCanvasRenderingContext2d", "DomRect"] }
