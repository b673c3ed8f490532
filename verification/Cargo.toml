[package]
name = "can_node"
version = "0.1.0"
edition = "2021"
publish = false

[dependencies]
anyhow = "1"
embedded-can = "0.4"
embedded-graphics = "0.8"
esp-idf-hal = "*"
esp-idf-svc = "*"
log = "0.4"
mcp2515 = "*"
ssd1306 = "*"
