[package]
name = "spider_window"
version = "0.1.0"
edition = "2021"
publish = false

[dependencies]
url = "=2.5.8"
open = "=5.4.5"
gtk4 = { version = "0.11", features = ["v4_12"] }
libadwaita = { version = "0.9", features = ["v1_5"] }
webkit6 = { version = "0.6", features = ["v2_46"] }
