[package]
name = "bbob_optimizations"
version = "0.1.0"
edition = "2021"
publish = false

[dependencies]
rand = "=0.8.8"
rand_pcg = "=0.3.1"
num = "=0.4.3"
itertools = "=0.10.5"
clap = { version = "=4.6.7", features = ["derive"] }
miette = "=5.10.0"
coco-rs = "=0.7.0"
colored = "=2.2.0"
indicatif = "=0.17.11"
env_logger = "=0.10.2"
log = "=0.4.34"
regex = "1"
which = "4"
dunce = "1"
