[package]
name = "conduit"
version = "0.1.0"
edition = "2021"
publish = false

[dependencies]
actix = "0.13"
actix-cors = "0.7"
actix-web = { version = "4", default-features = false }
chrono = { version = "0.4", default-features = false, features = ["std"] }
diesel = { version = "2", default-features = false, features = ["postgres", "r2d2"] }
futures = "0.3"
log = "0.4"
num_cpus = "1"
regex = "1"
serde = { version = "1", features = ["derive"] }
serde_json = "1"
uuid = "1"
validator = "0.16"
