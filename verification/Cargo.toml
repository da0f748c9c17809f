[package]
name = "client_utils"
version = "0.1.0"
edition = "2021"
publish = false

[dependencies]
alloy-consensus = "*"
alloy-eips = "*"
alloy-primitives = "*"
alloy-rlp = "*"
op-alloy-consensus = "*"
kona-protocol = "*"
