[package]
name = "txn_display"
version = "0.1.0"
edition = "2021"
publish = false

[dependencies]
casper-types = "=7.0.0"
thousands = "=0.2.0"
