[package]
name = "geyser_sub"
version = "0.1.0"
edition = "2021"
publish = false

[dependencies]
futures = "*"
tonic = "*"
yellowstone-grpc-client = "*"
yellowstone-grpc-proto = "*"
