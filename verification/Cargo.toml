[package]
name = "mutebtn"
version = "0.1.0"
edition = "2021"
publish = false

[dependencies]
clap = "=4.6.7"
config = "=0.15.27"
crossbeam-channel = "=0.5.17"
hidapi = { version = "=2.6.7", default-features = false, features = ["linux-native-basic-udev"] }
pulsectl-rs = "=0.3.2"
serde = { version = "=1.0.229", features = ["derive"] }
signal-hook = "=0.4.5"
