[package]
name = "palaco-la"
version = "0.1.0"
edition = "2021"
publish = false

[dependencies]
chrono = { version = "0.4", features = ["serde"] }
ed25519-dalek = { version = "2", features = ["rand_core"] }
serde = { version = "1", features = ["derive"] }
serde_json = "1"
sha2 = "0.10"
sqlx = { version = "0.8", default-features = false, features = ["postgres", "runtime-tokio", "uuid", "chrono", "migrate"] }
uuid = { version = "1", features = ["v4", "serde"] }

[dev-dependencies]
rand_core = { version = "0.6", features = ["getrandom"] }
