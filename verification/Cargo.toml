[package]
name = "rradio_lcd_driver"
version = "0.1.0"
edition = "2021"
publish = false

[dependencies]
unidecode = "0.3"
anyhow = "1"
chrono = "0.4"
tokio = { version = "1", features = ["net", "time", "rt", "macros", "io-util"] }
futures-util = "0.3"
serde = { version = "1", features = ["derive"] }
toml = "*"
clerk = "*"
gpio-cdev = "*"
hex = "0.4"
pnet = "*"
procfs = "*"
psutil = "*"
