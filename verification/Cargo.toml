[package]
name = "cryptmon"
version = "0.1.0"
edition = "2021"
publish = false

[dependencies]
chrono = "0.4"
ureq = { version = "2", features = ["json"] }
serde = { version = "1", features = ["derive"] }
serde_json = "1"
termion = "*"
notifica = "*"
lettre = "0.9"
lettre_email = "0.9"
