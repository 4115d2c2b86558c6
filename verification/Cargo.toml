[package]
name = "netpulse"
version = "0.1.0"
edition = "2021"

[dependencies]
clap = "4"
tokio = { version = "1", features = ["macros", "process", "rt-multi-thread"] }
trust-dns-resolver = "0.22"
