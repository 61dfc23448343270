[package]
name = "syntax_highlighter"
version = "0.1.0"
edition = "2021"
publish = false

[dependencies]
base64 = "=0.13.1"
protobuf = "=3.7.2"
rocket = { version = "0.5", features = ["json"] }
serde = { version = "=1.0.229", features = ["derive"] }

[dev-dependencies]
scip = "=0.10.0"
