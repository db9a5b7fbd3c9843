[package]
name = "yocto_actor"
version = "0.1.0"
edition = "2021"
publish = false

[dependencies]
bincode = "1"
heck = "0.3"
proc-macro2 = "1"
quote = "1"
rand = "0.8"
serde = { version = "1", features = ["derive"] }
syn = { version = "1", features = ["full"] }
zmq = "0.10"
