[package]
name = "uniswap_v2_pair"
version = "0.1.0"
edition = "2021"
publish = false

[dependencies]
ink_env = "=3.3.1"
ink_lang = "=3.3.1"
ink_prelude = "=3.3.1"
ink_primitives = "=3.3.1"
ink_storage = "=3.3.1"
openbrush = { version = "=2.1.0", features = ["psp22"] }
parity-scale-codec = { version = "=3.7.5", features = ["derive"] }
scale-info = { version = "=2.11.6", features = ["derive"] }
