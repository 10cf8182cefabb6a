[package]
name = "bevy_egui"
version = "0.1.0"
edition = "2021"
publish = false

[dependencies]
arboard = { version = "=3.7.0", default-features = false, features = ["image-data"] }
bevy_app = "=0.16.1"
bevy_asset = "=0.16.1"
bevy_core_pipeline = "=0.16.1"
bevy_ecs = "=0.16.1"
bevy_image = "=0.16.1"
bevy_input = "=0.16.1"
bevy_log = "=0.16.1"
bevy_math = "=0.16.1"
bevy_picking = "=0.16.1"
bevy_platform = "=0.16.1"
bevy_render = "=0.16.1"
bevy_time = "=0.16.1"
bevy_transform = "=0.16.1"
bevy_window = "=0.16.1"
bytemuck = "=1.25.2"
crossbeam-channel = "=0.5.17"
egui = { version = "=0.31.1", default-features = false, features = ["bytemuck"] }
encase = "=0.10.0"
itertools = "=0.14.0"
thread_local = "=1.1.10"
wasm-bindgen = "=0.2.129"
wasm-bindgen-futures = "=0.4.79"
web-sys = { version = "=0.3.106", features = ["Clipboard", "ClipboardEvent", "CompositionEvent", "CssStyleDeclaration", "DataTransfer", "Document", "Element", "Event", "EventTarget", "HtmlElement", "HtmlInputElement", "InputEvent", "KeyboardEvent", "Navigator", "Node", "TouchEvent", "Window"] }
webbrowser = "=1.2.5"
wgpu-types = "=24.0.0"
