[package]
name = "modbus_tool"
version = "0.1.0"
edition = "2021"
publish = false

[dependencies]
tokio = { version = "1", features = ["rt", "rt-multi-thread", "time"] }
tokio-util = "0.7"
tokio-serial = { version = "5", default-features = false }
serialport = { version = "4", default-features = false }
eframe = { version = "0.31", default-features = false, features = ["default_fonts", "glow", "x11"] }
log = "0.4"
env_logger = "0.11"
