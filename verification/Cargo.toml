[package]
name = "versioned_entries"
version = "0.1.0"
edition = "2021"
publish = false

[dependencies]
hdk = "=0.7.0"
hdi = "=0.8.0"
hdk_derive = "=0.7.0"
holochain_serialized_bytes = "=0.0.57"
holo_hash = "=0.7.0"
serde = { version = "=1.0.228", features = ["derive"] }
