[package]
name = "pluto"
version = "0.1.0"
edition = "2021"
publish = false

[dependencies]
industrial-io = "*"
memmap2 = "0.9"
libc = "0.2"
tokio = { version = "1", features = ["full"] }
warp = { version = "0.3", features = ["tls"] }
futures = "0.3"
serde = { version = "1", features = ["derive"] }
serde_json = "1"
log = "0.4"
env_logger = "*"
num-complex = "0.4"
rustfft = "6"
orion-sdr = "*"
hound = "3"
