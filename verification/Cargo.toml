[package]
name = "shader_player"
version = "0.1.0"
edition = "2021"
publish = false

[dependencies]
wasm-bindgen = "*"
js-sys = "*"
web-sys = { version = "*", features = ["Window", "Document", "Element", "HtmlCanvasElement", "HtmlElement", "Event", "EventTarget", "CustomEvent", "CustomEventInit", "MouseEvent", "DomRect", "WebGl2RenderingContext", "WebGlProgram", "WebGlShader", "WebGlUniformLocation", "console", "Performance"] }
serde = { version = "*", features = ["derive"] }
serde-wasm-bindgen = "*"
minwebgl = "*"
