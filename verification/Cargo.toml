[package]
name = "ipp-sharing-core"
version = "0.1.0"
edition = "2021"
publish = false

[dependencies]
bimap = "=0.6.3"
uuid = { version = "=1.29.0", features = ["serde"] }
ipp = "=6.0.1"
ippper = "=0.6.0"
winprint = { version = "=0.3.1", default-features = false }
print_raster = "=0.1.0"
anyhow = "=1.0.104"
clap = { version = "=4.6.7", features = ["derive"] }
flexi_logger = "=0.31.10"
futures = "=0.3.34"
gethostname = "=1.1.0"
hyper = "=1.12.0"
log = "=0.4.35"
mdns-sd = "=0.21.7"
serde = { version = "=1.0.229", features = ["derive"] }
serde_yaml_ng = "=0.10.0"
tiff = "=0.11.3"
tokio = { version = "=1.54.1", features = ["full"] }
blocking = "=1.7.0"
