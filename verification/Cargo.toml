[package]
name = "snp_launch"
version = "0.1.0"
edition = "2021"
publish = false

[dependencies]
iocuddle = "=0.3.0"
zerocopy = { version = "*", features = ["derive"] }
