[package]
name = "shadercanvas"
version = "0.1.0"
edition = "2021"
publish = false

[dependencies]
wasm-bindgen = "*"
js-sys = "*"
web-sys = { version = "*", features = ["Document", "Element", "EventTarget", "HtmlCanvasElement", "HtmlElement", "MouseEvent", "WebGl2RenderingContext", "WebGlBuffer", "WebGlProgram", "WebGlShader", "WebGlUniformLocation", "WebGlVertexArrayObject", "Window"] }
wasm-timer = "*"
log = "*"
console_log = "*"
