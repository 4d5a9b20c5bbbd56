[package]
name = "step_registry"
version = "0.1.0"
edition = "2021"
publish = false

[dependencies]
quire = "=0.4.1"
serde = "=1.0.229"
libc = "=0.2.191"
argparse = "=0.2.2"
rustc-serialize = "=0.3.25"
