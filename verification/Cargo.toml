[package]
name = "lenra_cli"
version = "0.1.0"
edition = "2021"
publish = false

[dependencies]
regex = "1"
serde = { version = "1", features = ["derive"] }
serde_json = "1"
serde_yaml = "0.9"
clap = { version = "3.2", features = ["derive"] }
dofigen = "1"
docker-compose-types = "*"
rustyline = "10"
colored = "2"
dirs = "4"
log = "0.4"
env_logger = "0.10"
loading = "0.3"
tokio = { version = "1", features = ["full"] }
ureq = { version = "2", features = ["json"] }
jsonschema = { version = "0.16", default-features = false }
chrono = { version = "0.4", default-features = false, features = ["clock", "std"] }
