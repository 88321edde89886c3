[package]
name = "mirilti"
version = "0.1.0"
edition = "2021"
publish = false

[dependencies]
hound = "=3.5.1"
rubato = "=0.16.2"
cpal = "=0.15.3"
ashpd = { version = "=0.13.13", features = ["global_shortcuts", "remote_desktop", "screencast"] }
futures-util = "=0.3.34"
serde = { version = "=1.0.229", features = ["derive"] }
