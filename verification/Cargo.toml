[package]
name = "stateless_input"
version = "0.1.0"
edition = "2021"
publish = false

[dependencies]
alloy = { version = "=1.8.3", default-features = false, features = ["rpc-types-debug"] }
alloy-consensus = { version = "=1.8.3", features = ["k256"] }
alloy-provider = { version = "=1.8.3", default-features = false, features = ["reqwest", "debug-api"] }
anyhow = "1"
bincode = "=1.3.3"
clap = { version = "=4.6.7", default-features = false, features = ["std", "derive", "help", "usage", "error-context"] }
rayon = "=1.12.0"
tokio = { version = "=1.54.1", features = ["macros", "rt-multi-thread"] }
url = "=2.5.8"
