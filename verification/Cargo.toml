[package]
name = "ratex"
version = "0.1.0"
edition = "2021"
publish = false

[dependencies]
ab_glyph = "*"
png = "*"
tiny-skia = "*"
fontdb = "*"
serde = { version = "1", features = ["derive"] }
serde_json = "1"
