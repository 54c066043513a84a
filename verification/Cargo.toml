[package]
name = "keyjack"
version = "0.1.0"
edition = "2021"
publish = false

[dependencies]
anyhow = "=1.0.104"
biquad = "=0.6.0"
jack = "0.8"
mio = { version = "=1.2.4", features = ["os-poll", "os-ext"] }
mio-serial = { version = "=5.0.7", default-features = false }
serialport = { version = "=4.10.1", default-features = false }
signal-hook = "=0.4.5"
signal-hook-mio = { version = "=0.3.0", features = ["support-v1_0"] }
structopt = "=0.3.26"
