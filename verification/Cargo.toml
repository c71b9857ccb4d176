[package]
name = "hbb_common"
version = "0.1.0"
edition = "2021"
publish = false

[dependencies]
zstd = "0.13"
rustls-pemfile = "1"
rustls = "0.21"
s2n-quic = { version = "1", default-features = false, features = ["provider-address-token-default", "provider-tls-rustls"] }
tokio = { version = "1", features = ["full"] }
tokio-util = { version = "0.7", features = ["codec"] }
futures-util = { version = "0.3", features = ["sink"] }
bytes = "1"
async-trait = "0.1"
protobuf = { version = "3", features = ["with-bytes"] }
image = { version = "0.24", default-features = false, features = ["png"] }
log = "0.4"
lazy_static = "1"
anyhow = "1"
