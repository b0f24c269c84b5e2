[package]
name = "promptline"
version = "0.1.0"
edition = "2021"
publish = false

[dependencies]
unicode-segmentation = "*"
git2 = "*"
tokio = { version = "*", features = ["macros", "rt-multi-thread"] }
dirs = "*"
