[package]
name = "kaminari"
version = "0.1.0"
edition = "2021"
publish = false

[dependencies]
anyhow = "1"
lazy_static = "1"
lightws = "*"
rcgen = "*"
realm_io = "*"
realm_syscall = "*"
rustls-pemfile = "2"
tokio = { version = "1", features = ["net", "rt", "rt-multi-thread", "macros", "io-util"] }
tokio-rustls = { version = "0.26", default-features = false, features = ["ring", "tls12", "logging"] }
udpflow = "*"
webpki-roots = "*"
