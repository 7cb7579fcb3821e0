[package]
name = "wrist_hello"
version = "0.1.0"
edition = "2021"
publish = false

[dependencies]
rand = "*"
p256 = { version = "*", features = ["ecdsa", "pkcs8"] }
ecdsa = "*"
hex = "*"
shell-words = "*"
uuid = { version = "*", features = ["v4"] }
tokio = { version = "*", features = ["full"] }
eyre = "*"
serde = { version = "*", features = ["derive"] }
toml = "*"
tracing = "*"
tracing-subscriber = "*"
xdg = "*"
libc = "*"
bluer = { version = "*", features = ["bluetoothd"] }
