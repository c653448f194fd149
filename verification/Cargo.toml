[package]
name = "vanity"
version = "0.1.0"
edition = "2021"
publish = false

[dependencies]
sha2 = "0.10"
rand = "0.8"
fd_bs58 = "*"
rayon = "1"
clap = { version = "4", features = ["derive"] }
ctrlc = "3"
bs58 = "0.5"
num-format = "0.4"
logfather = "*"
indicatif = "0.17"
