[package]
name = "dooc"
version = "0.1.0"
edition = "2021"
publish = false

[dependencies]
typst = "=0.15.1"
typst-pdf = "=0.15.1"
chrono = "=0.4.45"

[dev-dependencies]
typst-assets = { version = "=0.15.1", features = ["fonts"] }
