[package]
name = "malen"
version = "0.1.0"
edition = "2021"
publish = false

[dependencies]
glow = "0.12"
nalgebra = "0.30"
bytemuck = { version = "1", features = ["derive"] }
bytemuck_derive = "1"
half = { version = "1", features = ["bytemuck"] }
crevice = "0.11"
thiserror = "1"
log = "0.4"
instant = "0.1"
slab = "0.4"
coarse-prof = "0.2"
wasm-bindgen = "0.2"
wasm-bindgen-futures = "0.4"
web-sys = { version = "0.3", features = ["Window", "Document", "Event", "EventTarget", "FocusEvent", "KeyboardEvent", "MouseEvent", "HtmlCanvasElement", "HtmlElement", "Element", "DomRect", "ImageBitmap", "Blob", "Response"] }
