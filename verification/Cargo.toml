[package]
name = "navcrawl"
version = "0.1.0"
edition = "2021"
publish = false

[dependencies]
hyper = "=0.10.16"
robotparser = "=0.11.0"
select = "=0.6.1"
url = "=2.5.8"
