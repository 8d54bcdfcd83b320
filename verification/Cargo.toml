[package]
name = "astro_core"
version = "0.1.0"
edition = "2021"
publish = false

[dependencies]
chrono = "=0.4.45"
chrono-tz = "=0.10.4"
tzf-rs = { version = "=2.1.2", default-features = false, features = ["bundled"] }
vsop87 = "=3.0.0"
rayon = "=1.12.0"
