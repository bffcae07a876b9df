[package]
name = "game_engine"
version = "0.1.0"
edition = "2021"
publish = false

[dependencies]
regex-lite = "=0.1.9"
serde = { version = "1", features = ["derive"] }
serde_json = "=1.0.154"
wasm-bindgen = "0.2"
js-sys = "0.3"
wasm-bindgen-futures = "0.4"
rand = "0.8"
console_error_panic_hook = "0.1"
web-sys = { version = "0.3", features = ["console", "Window", "Document", "Element", "HtmlElement", "HtmlCanvasElement", "HtmlAudioElement", "HtmlMediaElement", "CustomEvent", "CustomEventInit", "Event", "EventTarget", "Location", "Response"] }
bevy = { version = "=0.16.1", default-features = false, features = ["bevy_sprite", "bevy_ui", "bevy_text", "bevy_window"] }
