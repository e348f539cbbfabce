[package]
name = "printnanny"
version = "0.1.0"
edition = "2021"
publish = false

[dependencies]
anyhow = "1"
async-trait = "0.1"
bytes = "1"
chrono = "0.4"
clap = "3"
diesel = { version = "2", default-features = false, features = ["sqlite", "chrono"] }
figment = { version = "0.10", features = ["env", "json", "toml"] }
git2 = { version = "*", default-features = false }
glob = "0.3"
gst-client = "*"
lazy_static = "1"
log = "0.4"
nix = { version = "*", features = ["net"] }
printnanny-api-client = "*"
printnanny-asyncapi-models = "*"
procfs = "*"
serde = { version = "1", features = ["derive"] }
serde_json = "1"
sys-info = "0.9"
thiserror = "1"
tokio = { version = "1", features = ["rt", "fs", "macros"] }
toml = "0.5"
uuid = { version = "1", features = ["v4"] }
zbus_systemd = { version = "*", features = ["systemd1"] }
