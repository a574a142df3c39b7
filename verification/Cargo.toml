[package]
name = "gamepie"
version = "0.1.0"
edition = "2021"
publish = false

[dependencies]
clap = { version = "3", features = ["derive"] }
colored = "2"
ctrlc = "3"
embedded-graphics = "0.7"
evdev-rs = "0.6"
glob = "0.3"
lazy_static = "1"
libc = "0.2"
libloading = "0.7"
log = "0.4"
profont = "0.6"
rppal = "0.14"
sdl2 = "0.35"
simple_logger = "2"
tinybmp = "0.3"
toml = "0.5"
