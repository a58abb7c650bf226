[package]
name = "token_lottery"
version = "0.1.0"
edition = "2021"
publish = false

[dependencies]
anchor-lang = { version = "=0.31.2", features = ["init-if-needed"] }
anchor-spl = { version = "=0.31.2", default-features = false, features = ["token", "token_2022", "token_2022_extensions", "metadata", "associated_token"] }
switchboard-on-demand = "=0.13.0"
