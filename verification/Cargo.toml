[package]
name = "scylla-aws-keyspaces-authenticator"
version = "0.1.0"
edition = "2021"
publish = false

[dependencies]
async-trait = "0.1"
aws-config = { version = "*", default-features = false }
aws-credential-types = "*"
aws-types = "*"
chrono = { version = "0.4", default-features = false, features = ["std", "clock"] }
data-encoding = "2"
ring = "0.17"
scylla = "*"
