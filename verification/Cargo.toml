[package]
name = "lucat"
version = "0.1.0"
edition = "2021"
publish = false

[dependencies]
async-trait = "=0.1.92"
bytes = "=1.12.1"
h2 = "*"
http = "=1.5.0"
proc-macro2 = "=1.0.107"
prost = "=0.14.4"
prost-build = "=0.14.4"
quote = "=1.0.47"
syn = "=3.0.6"
tokio = { version = "*", features = ["full"] }
