[package]
name = "invoice_detective"
version = "0.1.0"
edition = "2021"
publish = false

[dependencies]
lightning = "=0.2.7"
lightning-invoice = "=0.34.1"
lnurl-rs = { version = "=0.10.0", default-features = false }
rusqlite = { version = "=0.40.2", features = ["bundled"] }
serde_json = "=1.0.151"
iso_currency = "=0.7.1"
bitcoin = { version = "=0.32.102", features = ["rand-std"] }
chrono = "=0.4.45"
json = "=0.12.4"
reqwest = { version = "=0.12.28", default-features = false, features = ["blocking", "rustls-tls"] }
colored = "=3.1.1"
anyhow = "=1.0.104"
