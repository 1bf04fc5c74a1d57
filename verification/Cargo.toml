[package]
name = "credential_agent"
version = "0.1.0"
edition = "2021"
publish = false

[dependencies]
anyhow = "=1.0.104"
base64 = "=0.22.1"
chacha20poly1305 = "=0.10.1"
dirs = "=7.0.0"
homedir = "=0.3.6"
interprocess = { version = "=2.4.7", features = ["tokio"] }
rsa = "=0.9.10"
serde_json = "=1.0.154"
sha2 = { version = "=0.10.9", features = ["oid"] }
signature = "=2.2.0"
ssh-key = { version = "=0.6.7", features = ["ed25519", "rsa", "p256"] }
sysinfo = "=0.39.6"
tokio = { version = "=1.54.1", features = ["rt", "rt-multi-thread", "net", "io-util", "sync", "time", "macros"] }
tracing = "=0.1.44"
zeroize = "=1.9.1"
