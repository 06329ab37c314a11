[package]
name = "token_acl"
version = "0.1.0"
edition = "2021"
publish = false

[dependencies]
bytemuck = "=1.25.2"
clap = { version = "3", features = ["cargo"] }
num-traits = "=0.2.19"
solana-account-info = "=3.1.1"
solana-cpi = "=3.1.0"
solana-instruction = "=4.0.0"
solana-program = "*"
solana-program-error = "=3.0.1"
solana-program-pack = "=3.1.0"
solana-pubkey = { version = "=4.4.0", features = ["curve25519"] }
solana-rent = "=4.5.0"
solana-system-interface = { version = "=3.3.0", features = ["bincode"] }
solana-sysvar = "=3.1.1"
spl-associated-token-account-client = "*"
spl-discriminator = "=0.5.2"
spl-pod = "=0.7.4"
spl-tlv-account-resolution = "=0.11.4"
spl-token-2022 = "=11.1.0"
thiserror = "=2.0.21"
tokio = { version = "1", features = ["macros", "rt-multi-thread"] }
