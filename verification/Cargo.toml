[package]
name = "waveshare_barcodescanner"
version = "0.1.0"
edition = "2021"
publish = false

[dependencies]
anyhow = "1"
chrono = { version = "0.4", default-features = false }
crc-any = "2"
serial2 = "0.2"
tracing = "0.1"
