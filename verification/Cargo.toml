[package]
name = "hypochlorite"
version = "0.1.0"
edition = "2021"
publish = false

[dependencies]
url = "2"
rand = "0.8"
thirtyfour = "0.32"
tokio = { version = "1", features = ["macros", "rt-multi-thread"] }
reqwest = "0.12"
csv = "1"
serde = { version = "1", features = ["derive"] }
colored = "2"
libc = "0.2"
