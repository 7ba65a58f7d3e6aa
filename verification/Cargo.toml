[package]
name = "https_samp"
version = "1.0.0"
edition = "2021"
publish = false

[dependencies]
base64 = "0.22"
crossbeam-channel = "0.5"
num_cpus = "1"
reqwest = { version = "0.12", default-features = false, features = ["blocking", "rustls-tls", "cookies", "multipart", "http2", "gzip", "brotli", "deflate", "zstd"] }
samp = "*"
serde_json = "1"
url = "2"
