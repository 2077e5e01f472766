[package]
name = "rc8_core"
version = "0.1.0"
edition = "2021"
publish = false

[dependencies]
rand = "=0.8.8"
clap = { version = "=4.6.7", features = ["derive"] }
sdl2 = { version = "=0.37.0", features = ["gfx", "ttf"] }
rfd = { version = "=0.17.2", default-features = false, features = ["xdg-portal"] }
wasm-bindgen = "=0.2.130"
js-sys = "=0.3.107"
web-sys = { version = "=0.3.107", features = ["CanvasRenderingContext2d", "HtmlCanvasElement", "KeyboardEvent", "Window", "Document", "Element"] }
