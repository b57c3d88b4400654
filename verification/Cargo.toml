[package]
name = "jovian_cycles"
version = "0.1.0"
edition = "2021"
publish = false

[dependencies]
catppuccin-egui = { version = "5.1", default-features = false, features = ["egui27"] }
chrono = { version = "0.4", default-features = false, features = ["now"] }
egui = "0.27"
log = "0.4"
rand = "0.8"
serde = { version = "1", features = ["derive"] }
