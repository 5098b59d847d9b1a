[package]
name = "footlights_engine"
version = "0.1.0"
edition = "2021"
publish = false

[dependencies]
elementtree = "1"
anyhow = "1"
thiserror = "1"
serde = { version = "1", features = ["derive"] }
serde_yaml = "0.9"
clap = { version = "4", features = ["derive"] }
tokio = { version = "1", features = ["io-std", "io-util", "macros", "rt-multi-thread"] }
tinytemplate = "1"
base64 = "0.21"
image = { version = "0.24", default-features = false, features = ["png", "jpeg"] }
resvg = "0.29"
wasm-bindgen = "0.2"
serde-wasm-bindgen = "0.5"
