[package]
name = "map_engine"
version = "0.1.0"
edition = "2021"
publish = false

[dependencies]
png = "=0.17.16"
rand = "=0.8.8"
uuid = { version = "=1.29.0", features = ["v4"] }
serde = { version = "=1.0.229", features = ["derive"] }
serde_json = "=1.0.154"
palette = "=0.6.1"
ndarray = "=0.15.6"
num-traits = "=0.2.19"
thiserror = "=1.0.69"
log = "=0.4.34"
tide = "=0.16.0"
async-std = { version = "=1.13.2", features = ["attributes"] }
gdal = "=0.15.0"
quick-xml = { version = "0.31", features = ["serialize"] }
