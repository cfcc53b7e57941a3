[package]
name = "mysql_proxy"
version = "0.1.0"
edition = "2021"
publish = false

[dependencies]
byteorder = "1"
futures = "0.1"
tokio-core = "0.1"
