[package]
name = "faircamp"
version = "0.1.0"
edition = "2021"
publish = false

[dependencies]
chrono = { version = "=0.4.45", default-features = false, features = ["std", "clock"] }
id3 = { version = "=1.17.2", default-features = false }
iso_currency = "=0.7.1"
opus_headers = "=0.1.2"
pulldown-cmark = { version = "=0.13.6", default-features = false, features = ["html"] }
sanitize-filename = "=0.6.0"
url = "2"
urlencoding = "=2.1.3"
