[package]
name = "rs_neocities"
version = "0.1.0"
edition = "2021"
publish = false

[dependencies]
serde_json = "=1.0.151"
sha1 = "=0.11.0"
chrono = "=0.4.45"
thiserror = "=2.0.21"
reqwest = { version = "=0.13.5", default-features = false, features = ["blocking", "multipart", "query"] }
