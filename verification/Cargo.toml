[package]
name = "school_rules"
version = "0.1.0"
edition = "2021"
publish = false

[dependencies]
candid = "=0.10.39"
ic-cdk = "=0.19.0"
junobuild-macros = "=0.4.1"
junobuild-satellite = "=0.6.2"
junobuild-shared = "=0.8.2"
junobuild-utils = "=0.4.0"
serde = { version = "=1.0.229", features = ["derive"] }
serde_cbor = "=0.11.2"
