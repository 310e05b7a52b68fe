[package]
name = "nvmd"
version = "0.1.0"
edition = "2021"
publish = false

[dependencies]
anyhow = "1"
archive = "=1.0.0"
attohttpc = { version = "=0.31.0", default-features = false, features = ["json", "tls-rustls-webpki-roots-ring"] }
clap = { version = "4", features = ["derive"] }
clap-cargo = "*"
console = "*"
ctrlc = "3"
dirs = "*"
envoy = "*"
fs_extra = "1"
indicatif = "*"
node-semver = "=2.2.0"
regex = "=1.13.1"
retry = "*"
serde = { version = "1", features = ["derive"] }
serde_json = "1"
tempfile = "3"
terminal_size = "*"
time = { version = "=0.3.55", features = ["local-offset", "formatting"] }
version-compare = "=0.2.1"
