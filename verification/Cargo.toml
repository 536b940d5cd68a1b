[package]
name = "actor"
version = "0.1.0"
edition = "2021"
publish = false

[dependencies]
anyhow = "=1.0.104"
cid = "=0.11.3"
fvm_ipld_blockstore = "=0.3.2"
fvm_ipld_encoding = "=0.5.4"
fvm_ipld_hamt = "=0.10.6"
fvm_shared = "=4.8.4"
num-derive = "=0.4.2"
num-traits = "=0.2.19"
serde = { version = "=1.0.229", features = ["derive"] }
serde_tuple = "=1.1.3"
