[package]
name = "tama_core"
version = "0.1.0"
edition = "2021"
publish = false

[dependencies]
anyhow = "1"
crossterm = "=0.28.1"
embedded-graphics = "=0.8.2"
embedded-graphics-simulator = "=0.8.0"
enum_dispatch = "=0.3.13"
esp-idf-hal = "0.46"
esp-idf-svc = "0.52"
heapless = "=0.8.0"
lazy_static = "1"
log = "0.4"
mipidsi = "=0.10.0"
rand = { version = "=0.9.5", default-features = false, features = ["small_rng"] }
ratatui = "=0.29.0"
rodio = "=0.23.0"
tinybmp = "=0.7.0"
