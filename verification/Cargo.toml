[package]
name = "rustsdlretro-core"
version = "0.1.0"
edition = "2021"
publish = false

[dependencies]
zip = { version = "*", default-features = false, features = ["deflate"] }
png = "*"
serde = { version = "1", features = ["derive"] }
serde_json = "1"
libc = "0.2"
alsa = "*"
evdev = "*"
minifb = "*"
tokio = { version = "1", features = ["rt-multi-thread", "net", "sync", "macros", "time"] }
tungstenite = "*"
async-tungstenite = { version = "*", features = ["tokio-runtime"] }
futures-util = { version = "0.3", features = ["sink"] }
crossbeam-channel = "0.5"
