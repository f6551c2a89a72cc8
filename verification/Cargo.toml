[package]
name = "warboss_waaghit"
version = "0.1.0"
edition = "2021"
publish = false

[dependencies]
chrono = "0.4"
dirs = "3"
eframe = { version = "0.11", features = ["persistence"] }
egui = "0.11"
enum-iterator = "0.6"
serde = { version = "1", features = ["derive"] }
wfd = "0.1"
