[package]
name = "corics_quest"
version = "0.1.0"
edition = "2021"
publish = false

[dependencies]
miniquad = "0.4"
miniserde = "0.1"
png = "0.17"
quad-snd = "0.2"
quad-storage = "0.1"
