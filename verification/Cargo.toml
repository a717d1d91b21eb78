[package]
name = "lz4_etna"
version = "0.1.0"
edition = "2021"
publish = false

[dependencies]
lz4_flex = "=0.14.0"
proptest = "=1.12.0"
quickcheck = "=1.1.0"
crabcheck = "=0.2.0"
