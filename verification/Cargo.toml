[package]
name = "patme"
version = "0.1.0"
edition = "2021"
publish = false

[dependencies]
clap = { version = "*", features = ["derive"] }
confy = "*"
lettre = { version = "*", default-features = false, features = ["builder", "smtp-transport", "rustls-tls"] }
notify-rust = "*"
powershell_script = "*"
serde = "*"
serde_derive = "*"
