[package]
name = "pkce_flow"
version = "0.1.0"
edition = "2021"
publish = false

[dependencies]
sha2 = "0.10"
getrandom = "0.2"
rand = "0.8"
dotenv = "0.15"
ureq = "2"
