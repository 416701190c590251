[package]
name = "settlement"
version = "0.1.0"
edition = "2021"
publish = false

[dependencies]
anchor-lang = "0.29.0"
anchor-spl = "0.29.0"
mpl-bubblegum = "1"
mpl-token-metadata = "4"
spl-account-compression = "0.3"
