[package]
name = "bhwi"
version = "0.1.0"
edition = "2021"
publish = false

[dependencies]
aes = "=0.8.4"
async-trait = "=0.1.92"
bitcoin = "=0.32.102"
clap = { version = "=4.6.7", features = ["derive"] }
ctr = "=0.9.2"
hidapi = { version = "=2.6.7", default-features = false, features = ["linux-native-basic-udev"] }
k256 = "=0.13.4"
serde_cbor = "=0.11.2"
serde_json = "=1.0.154"
serialport = { version = "=4.10.1", default-features = false }
tokio = { version = "=1.54.1", features = ["rt-multi-thread", "macros"] }
