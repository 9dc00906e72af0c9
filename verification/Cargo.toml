[package]
name = "rat_scrolled"
version = "0.1.0"
edition = "2021"
publish = false

[dependencies]
ratatui = "*"
crossterm = "*"
rat-event = "*"
