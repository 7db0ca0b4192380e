[package]
name = "quasar"
version = "0.1.0"
edition = "2021"
publish = false

[dependencies]
arrayref = "=0.3.9"
bytemuck = { version = "=1.25.2", features = ["derive"] }
fixed = "=1.31.0"
num_enum = "=0.5.11"
solana-program = "=1.18.26"
spl-token = "=4.0.3"
thiserror = "=1.0.69"
