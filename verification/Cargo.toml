[package]
name = "loco_protocol"
version = "0.1.0"
edition = "2021"
publish = false

[dependencies]
bson = "2"
libaes = "0.6"
pem = "1"
rand = "0.8"
rsa = "0.7"
sha1 = "0.10"
serde = { version = "1", features = ["derive"] }
tokio = { version = "1", features = ["net", "io-util", "rt-multi-thread", "macros"] }
tokio-native-tls = "0.3"
tokio-util = { version = "0.7", features = ["compat"] }

[dev-dependencies]
bincode = "1.3"
bytes = "1"
