[package]
name = "hiisi_simulator"
version = "0.1.0"
edition = "2021"
publish = false

[dependencies]
rand_chacha = "0.3"
rand = "0.8"
httparse = "1"
socket2 = "0.5"
env_logger = "0.11"
log = "0.4"
