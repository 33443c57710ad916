[package]
name = "kytan"
version = "0.1.0"
edition = "2021"
publish = false

[dependencies]
ring = "0.17"
snap = "1"
rand = "0.8"
transient-hashmap = "0.4"
mio = { version = "0.8", features = ["os-poll", "os-ext", "net"] }
clap = "2"
dns-lookup = "1"
env_logger = "0.10"
log = "0.4"
libc = "0.2"

[dev-dependencies]
bincode = "1"
