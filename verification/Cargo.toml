[package]
name = "spacenav_bridge"
version = "0.1.0"
edition = "2021"
publish = false

[dependencies]
ctrlc = "=3.5.2"
hidapi = { version = "=2.6.7", default-features = false, features = ["linux-native-basic-udev"] }
