[package]
name = "mintctl"
version = "0.2.0"
edition = "2021"
publish = false

[dependencies]
anyhow = "1"
bip39 = { version = "2", features = ["rand"] }
clap = { version = "4", features = ["derive"] }
cliclack = "0.3"
console = "0.15"
serde_json = "1"
sha2 = "0.10"
tempfile = "3"
time = { version = "0.3", features = ["formatting", "macros"] }
ureq = { version = "2", features = ["json"] }
