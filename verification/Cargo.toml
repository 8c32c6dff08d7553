[package]
name = "cookie_resolver"
version = "0.1.0"
edition = "2021"
publish = false

[dependencies]
clap = { version = "=4.6.7", features = ["derive"] }
content_disposition = "=0.4.0"
dirs = "=7.0.0"
indicatif = "=0.18.6"
log = "=0.4.34"
reqwest = { version = "*", default-features = false, features = ["blocking", "cookies"] }
thiserror = "=2.0.21"
tldextract = "=0.6.0"
url = "=2.5.8"
