[package]
name = "term_cell"
version = "0.1.0"
edition = "2021"
publish = false

[dependencies]
serde = { version = "1", features = ["derive"] }
libc = "0.2"
log = "0.4"
