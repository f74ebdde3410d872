[package]
name = "tnef"
version = "0.1.0"
edition = "2021"
publish = false

[dependencies]
chrono = "=0.4.45"
codepage = "=0.1.3"
encoding_rs = "0.8"
