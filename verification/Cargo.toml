[package]
name = "renameit"
version = "0.1.0"
edition = "2021"
publish = false

[dependencies]
chrono = "=0.4.45"
home = "=0.5.12"
thiserror = "=2.0.21"
iced = { version = "=0.14.0", default-features = false, features = ["tiny-skia", "crisp", "web-colors", "thread-pool", "x11", "wayland"] }
iced_aw = "=0.14.1"
iced_table2 = "=0.14.2"
rfd = "=0.17.2"
regex = "1"
