[package]
name = "asdbctl"
version = "0.1.0"
edition = "2021"
publish = false

[dependencies]
clap = "=4.6.7"
hidapi = { version = "=2.6.7", default-features = false, features = ["linux-native-basic-udev"] }
log = "=0.4.34"
slint = { version = "=1.18.1", default-features = false, features = ["std", "compat-1-2", "backend-qt"] }
stderrlog = "=0.6.0"
