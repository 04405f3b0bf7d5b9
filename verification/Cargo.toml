[package]
name = "vault_programs"
version = "0.1.0"
edition = "2021"
publish = false

[dependencies]
anchor-lang = "*"
anchor-spl = "*"
spl-tlv-account-resolution = "*"
spl-transfer-hook-interface = "*"
spl-discriminator = "*"
ephemeral-vrf-sdk = { version = "*", features = ["anchor"] }
