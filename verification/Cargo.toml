[package]
name = "demoman"
version = "0.1.0"
edition = "2021"
publish = false

[dependencies]
bincode = "=1.3.3"
bitbuffer = "=0.11.3"
cacache = "=13.1.0"
cfg-if = "=1.0.5"
clap = { version = "=4.6.7", features = ["derive"] }
log = "=0.4.34"
num-derive = "=0.5.1"
num-traits = "=0.2.19"
rcon = { version = "=0.6.0", features = ["rt-tokio"] }
serde = { version = "=1.0.229", features = ["derive"] }
serde_json = "=1.0.154"
steamid-ng = "=3.0.0"
steamlocate = "=2.1.1"
tf-demo-parser = "=0.7.1"
thiserror = "=2.0.21"
tokio = { version = "=1.54.1", features = ["fs", "macros", "net", "rt", "sync"] }
trash = "=5.2.9"
wyhash = "=0.6.0"
