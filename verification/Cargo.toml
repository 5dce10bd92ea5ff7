[package]
name = "batch_transcode"
version = "0.1.0"
edition = "2021"
publish = false

[dependencies]
time = "0.3"
log = "0.4"
log4rs = "1"
clap = "4"
