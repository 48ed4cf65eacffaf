[package]
name = "authn_kit"
version = "0.1.0"
edition = "2021"
publish = false

[dependencies]
actix-web = { version = "4", default-features = false, features = ["macros", "cookies"] }
async-trait = "0.1"
axum = { version = "0.8", default-features = false, features = ["json", "matched-path"] }
base64 = "0.22"
blake3 = { version = "1", features = ["pure"] }
futures-util = "0.3"
log = "0.4"
openidconnect = { version = "4", default-features = false, features = ["reqwest", "rustls-tls"] }
reqwest = { version = "0.12", default-features = false, features = ["json", "rustls-tls"] }
secrecy = "0.10"
serde = { version = "1", features = ["derive"] }
serde_json = "1"
subtle = "2"
thiserror = "2"
tokio = { version = "1", features = ["sync", "rt", "macros"] }
url = "2"
