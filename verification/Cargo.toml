[package]
name = "pi_monitor"
version = "0.1.0"
edition = "2021"
publish = false

[dependencies]
anyhow = "1"
display-interface-spi = "=0.4.1"
embedded-graphics = "=0.7.1"
env_logger = "*"
log = "0.4"
rppal = { version = "=0.22.1", features = ["hal"] }
serde = { version = "1", features = ["derive"] }
serde_json = "1"
st7789 = "=0.7.0"
tokio = { version = "=1.53.2", features = ["macros", "rt-multi-thread", "time"] }
warp = "=0.3.7"
