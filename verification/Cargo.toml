[package]
name = "fcitx5-ui-rs"
version = "0.1.0"
edition = "2021"
publish = false

[dependencies]
unicode-width = "=0.2.2"
nvim-oxi = { version = "=0.5.1", features = ["neovim-0-10", "libuv"] }
fcitx5-dbus = "=0.1.4"
lazy_static = "=1.5.1"
serde = { version = "=1.0.229", features = ["derive"] }
