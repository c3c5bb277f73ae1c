[package]
name = "space_query_probes"
version = "0.1.0"
edition = "2021"
publish = false

[dependencies]
serde_json = "1"
fltk = "1"
mysql = { version = "*", default-features = false, features = ["minimal"] }
oracle = "*"
