[package]
name = "openlogi"
version = "0.1.0"
edition = "2021"
publish = false

[dependencies]
etcetera = "*"
az = "*"
plist = "*"
thiserror = "*"
