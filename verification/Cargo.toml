[package]
name = "mks7_clap_controller"
version = "0.6.1"
edition = "2021"
publish = false

[dependencies]
clack-plugin = "=0.2.0"
clack-extensions = { version = "=0.2.0", features = ["clack-plugin", "params", "state", "note-ports", "remote-controls"] }
coremidi = "=0.9.2"
