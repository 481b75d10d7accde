[package]
name = "grav_launcher"
version = "0.1.0"
edition = "2021"
publish = false

[dependencies]
sha2 = "=0.11.0"
color-eyre = "=0.6.5"
crossterm = "=0.29.0"
eyre = "=0.6.14"
gilrs = "=0.11.2"
ratatui = "=0.30.2"
reqwest = { version = "=0.12.28", default-features = false, features = ["blocking", "rustls-tls", "json"] }
serde = { version = "=1.0.229", features = ["derive"] }
tui-widget-list = "=0.15.3"
unicode-width = "=0.2.2"
xdg = "=3.0.0"
