[package]
name = "ion_cli"
version = "0.1.0"
edition = "2021"
publish = false

[dependencies]
convert_case = "=0.12.0"
infer = "=0.22.0"
ion-rs = { version = "=1.2.0", features = ["experimental-tooling-apis", "experimental-ion-hash"] }
ion-schema = "=0.16.1"
clap = { version = "=4.6.7", features = ["cargo"] }
anyhow = "=1.0.104"
termcolor = "=1.4.1"
flate2 = "=1.1.10"
zstd = "=0.14.3"
sha2 = "=0.9.9"
sha3 = "=0.9.1"
thiserror = "=2.0.21"
lowcharts = "=0.5.8"
pager = "=0.16.1"
colored = "=3.1.1"
base64 = "=0.22.1"
serde_json = { version = "=1.0.154", features = ["arbitrary_precision", "preserve_order"] }
