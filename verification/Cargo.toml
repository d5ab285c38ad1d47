[package]
name = "gdal_locator"
version = "0.1.0"
edition = "2021"
publish = false

[dependencies]
gdal = "*"
glob = "0.3"
serde = { version = "1", features = ["derive"] }
thiserror = "*"
