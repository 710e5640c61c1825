[package]
name = "soteria"
version = "0.1.0"
edition = "2021"
publish = false

[dependencies]
anchor-lang = "=0.32.2"
mpl-core = { version = "=0.12.1", default-features = false, features = ["anchor-0-32"] }
pinocchio = "=0.12.0"
pinocchio-system = "=0.7.0"
pinocchio-token = "=0.8.0"
pinocchio-associated-token-account = "=0.5.0"
