[package]
name = "sherlock"
version = "0.1.0"
edition = "2021"
publish = false

[dependencies]
gio = "*"
gtk4 = "*"
serde = { version = "1", features = ["derive"] }
tokio = { version = "1", features = ["macros", "rt-multi-thread"] }
