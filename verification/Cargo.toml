[package]
name = "cazan_cli"
version = "0.1.0"
edition = "2021"
publish = false

[dependencies]
argh = "=0.1.19"
cazan-common = "=1.0.0"
cprint = { version = "=1.0.0", features = ["cprint", "ceprint", "cformat"] }
crossterm = "=0.27.0"
glob = "=0.3.4"
image = "=0.25.10"
open = "=5.4.5"
plotters = { version = "=0.3.7", default-features = false, features = ["bitmap_backend", "bitmap_encoder", "image", "line_series"] }
semver = { version = "=1.0.28", features = ["serde"] }
serde = { version = "=1.0.229", features = ["derive"] }
serde_ignored = "=0.1.14"
serde_json = "=1.0.154"
sha2 = "=0.10.9"
