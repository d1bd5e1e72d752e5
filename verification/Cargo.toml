[package]
name = "carguix"
version = "0.1.0"
edition = "2021"
publish = false

[dependencies]
cargo_toml = "=0.14.1"
crates-index = "=3.14.2"
data-encoding = "=2.11.1"
env_logger = "=0.7.1"
err-derive = "=0.2.4"
heck = "=0.3.3"
lexpr = "=0.2.7"
log = "=0.4.34"
reqwest = "=0.9.24"
rustbreak = "=1.4.0"
semver = "=0.9.0"
serde = { version = "=1.0.229", features = ["derive"] }
sha2 = "=0.8.2"
shellfn = "=0.1.1"
structopt = "=0.3.26"
tempdir = "=0.3.7"
toml = "=0.5.11"
