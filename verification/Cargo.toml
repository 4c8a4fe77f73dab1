[package]
name = "tui-metronome"
version = "0.1.0"
edition = "2021"
publish = false

[dependencies]
crossterm = "0.28"
ratatui = "0.29"
rodio = "0.20"
