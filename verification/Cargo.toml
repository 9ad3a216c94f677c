[package]
name = "scene_projection"
version = "0.1.0"
edition = "2021"
publish = false

[dependencies]
accesskit = { version = "=0.11.2", features = ["enumn"] }
accesskit_winit = { version = "0.14", default-features = false }
dioxus-core = "=0.4.3"
dioxus-hooks = "=0.4.3"
dioxus-native-core = "=0.4.0"
dioxus-native-core-macro = "0.4"
futures = "=0.3.34"
smallvec = "=1.16.4"
tokio = { version = "=1.54.1", features = ["sync", "macros"] }
uuid = { version = "=1.29.0", features = ["v4"] }
winit = { version = "0.28", default-features = false, features = ["x11"] }
