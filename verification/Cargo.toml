[package]
name = "metaparticle_sync"
version = "0.1.0"
edition = "2021"
publish = false

[dependencies]
requests = { version = "=0.0.25", default-features = false }
