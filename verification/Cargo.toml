[package]
name = "solana_program_client"
version = "0.1.0"
edition = "2021"
publish = false

[dependencies]
solana-rpc-client = "=2.2.20"
solana-rpc-client-api = "=2.2.20"
solana-transaction-status-client-types = "=2.2.20"
solana-keypair = "=2.2.3"
solana-signer = "=2.2.1"
solana-signature = "2"
solana-pubkey = "=2.4.0"
solana-instruction = "=2.3.3"
solana-message = "=2.4.0"
solana-transaction = "=2.2.3"
solana-hash = "=2.3.0"
solana-sha256-hasher = "=2.3.0"
solana-commitment-config = "=2.2.1"
solana-system-interface = "=1.0.0"
solana-address-lookup-table-interface = { version = "=2.2.2", features = ["bincode", "bytemuck"] }
borsh = "=1.8.1"
bincode = "=1.3.3"
base64 = "=0.22.1"
serde_json = "=1.0.151"
