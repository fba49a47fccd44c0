[package]
name = "blinky"
version = "0.1.0"
edition = "2021"
publish = false

[dependencies]
time = { version = "0.3", features = ["macros", "formatting"] }
serde = { version = "1", features = ["derive"] }
rmp-serde = "1"
serde_with = "3"
serde_repr = "0.1"
tokio = { version = "1", features = ["rt-multi-thread", "sync", "macros", "time"] }
log = "0.4"
env_logger = "*"
itertools = "*"
embedded-hal = "0.2"
embedded-graphics = "0.8"
embedded-graphics-framebuf = "*"
embedded-icon = "*"
enumflags2 = "0.7"
u8g2-fonts = "*"
tinytga = "*"
num_enum = "*"
strum_macros = "*"
profont = "*"
pcf8563 = "*"
