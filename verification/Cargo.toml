[package]
name = "term_wm_ui_components"
version = "0.1.0"
edition = "2021"
publish = false

[dependencies]
ratatui = "0.29"
unicode-width = "0.2"
pulldown-cmark = "0.12"
