[package]
name = "punk_watch"
version = "0.1.0"
edition = "2021"
publish = false

[dependencies]
dotenv = "0.15"
ethers = { version = "2", default-features = false, features = ["ws"] }
futures = "0.3"
reqwest = { version = "0.11", default-features = false, features = ["json"] }
serde_json = "1"
tokio = { version = "1", features = ["macros", "rt-multi-thread"] }

[dev-dependencies]
tiny-keccak = { version = "2", features = ["keccak"] }
