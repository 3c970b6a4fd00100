[package]
name = "msc_player"
version = "0.1.0"
edition = "2021"
publish = false

[dependencies]
chrono = "=0.4.45"
crossterm = "=0.29.0"
lofty = "=0.25.5"
ratatui = "=0.30.2"
rodio = "=0.21.1"
