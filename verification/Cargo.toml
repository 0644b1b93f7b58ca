[package]
name = "dropshipping"
version = "0.1.0"
edition = "2021"
publish = false

[dependencies]
chrono = { version = "=0.4.45", default-features = false, features = ["clock", "std", "serde"] }
clap = { version = "=4.6.7", features = ["derive"] }
fs_extra = "=1.3.0"
hypermelon = "=0.5.5"
js-sandbox = "=0.1.6"
mongodb = { version = "=2.8.2", features = ["tokio-sync"] }
num-format = "=0.4.4"
poloto = "=17.2.1"
rand = "=0.8.8"
scraper = "=0.29.0"
serde = { version = "=1.0.229", features = ["derive"] }
serde_json = "=1.0.154"
serde_repr = "=0.1.21"
tera = { version = "=1.20.1", default-features = false }
ureq = "=2.12.1"
url = "=2.5.8"
