[package]
name = "rent_tls"
version = "0.1.0"
edition = "2021"
publish = false

[dependencies]
rustls = { version = "0.23", default-features = false, features = ["ring", "std", "tls12"] }
monoio = { version = "0.2", default-features = false, features = ["legacy"] }

[dev-dependencies]
rcgen = "0.13"
