[package]
name = "wallbox_manager"
version = "0.1.0"
edition = "2021"
publish = false

[dependencies]
byteorder = "1"
chrono = "0.4"
clap = { version = "4", features = ["derive"] }
fern = "*"
flate2 = "1"
log = "0.4"
modbus = "1"
regex = "1"
rusqlite = "*"
serde = { version = "1", features = ["derive"] }
serde_derive = "1"
serde_json = "1"
toml = "*"
