[package]
name = "cursor_quads"
version = "0.1.0"
edition = "2021"
publish = false

[dependencies]
alacritty_config = "=0.1.1"
alacritty_config_derive = "=0.2.1"
alacritty_terminal = "=0.19.1"
crossfont = "=0.5.2"
gl = "=0.14.0"
