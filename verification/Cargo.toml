[package]
name = "strand_eval"
version = "0.1.0"
edition = "2021"
publish = false

[dependencies]
seq_io = "0.3"
itertools = "0.14"
serde_json = "1"
const_format = "0.2"
