[package]
name = "ticket_resell"
version = "0.1.0"
edition = "2021"
publish = false

[dependencies]
anchor-lang = "=0.31.2"
