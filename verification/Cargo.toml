[package]
name = "editor_tabs"
version = "0.1.0"
edition = "2021"
publish = false

[dependencies]
iced = { version = "0.13", default-features = false, features = ["tiny-skia", "advanced", "highlighter", "tokio"] }
iced_aw = { version = "0.12", default-features = false, features = ["menu"] }
rfd = { version = "0.15", default-features = false, features = ["xdg-portal", "tokio"] }
tokio = { version = "1", features = ["fs"] }
