[package]
name = "asus_steuerung"
version = "0.1.0"
edition = "2021"
publish = false

[dependencies]
gtk4 = "*"
relm4 = { version = "*", features = ["libadwaita"] }
tokio = { version = "*", features = ["rt", "fs"] }
