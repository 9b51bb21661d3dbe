[package]
name = "epd12in48"
version = "0.1.0"
edition = "2021"
publish = false

[dependencies]
derive-new = "0.5.9"
esp-backtrace = { version = "*", features = ["esp32", "panic-handler", "println"] }
esp32-hal = "0.14.0"
