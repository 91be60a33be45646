[package]
name = "code_gen"
version = "0.1.0"
edition = "2021"
publish = false

[dependencies]
clap = "=4.6.7"
maud = "=0.27.0"
proc-macro2 = "1"
quote = "1"
serde_json = "=1.0.154"
syn = { version = "=2.0.119", features = ["full"] }
