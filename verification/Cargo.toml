[package]
name = "easy_ssh"
version = "0.1.0"
edition = "2021"
publish = false

[dependencies]
ssh2 = "0.9"
thiserror = "1"
