[package]
name = "slm_patterns"
version = "0.1.0"
edition = "2021"
publish = false

[dependencies]
gdk = "0.12"
gdk-pixbuf = "0.8"
gtk = "0.8"
relm = "0.19"
relm-derive = "0.19"
serde = { version = "1", features = ["derive"] }
serde_json = "1"
