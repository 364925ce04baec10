[package]
name = "neotron_os"
version = "0.1.0"
edition = "2021"
publish = false

[dependencies]
neotron-common-bios = "*"
neotron-api = "*"
neotron-loader = "*"
embedded-sdmmc = "*"
pc-keyboard = "*"
postcard = "*"
serde = { version = "*", features = ["derive"] }
heapless = "*"
vte = "*"
