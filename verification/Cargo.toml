[package]
name = "user_directory"
version = "0.1.0"
edition = "2021"
publish = false

[dependencies]
dashmap = "=6.2.1"
uuid = { version = "=1.27.0", features = ["v7"] }
regex = "=1.13.1"
diesel = { version = "=2.3.13", features = ["postgres", "r2d2", "uuid"] }
diesel_migrations = "=2.3.2"
dotenv = "=0.15.0"
log = "=0.4.34"
fern = { version = "=0.7.1", features = ["colored"] }
chrono = "=0.4.45"
clap = { version = "=4.6.7", features = ["derive"] }
rand = "=0.8.8"
