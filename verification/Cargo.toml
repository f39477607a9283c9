[package]
name = "projectdmx"
version = "0.1.0"
edition = "2021"
publish = false

[dependencies]
heapless = { version = "0.8", features = ["serde"] }
serde = { version = "1", default-features = false, features = ["derive"] }
serde-json-core = "*"
smart-leds = "*"
embassy-executor = "*"
embassy-futures = "*"
embassy-net = "*"
embassy-rp = "*"
embassy-sync = "*"
embassy-time = "*"
embedded-graphics = "*"
embedded-hal-bus = "*"
embedded-sdmmc = "*"
nanomp3 = "*"
ssd1306 = "*"
static_cell = "*"
assign-resources = "*"
defmt = "*"
defmt-rtt = "*"
panic-probe = "*"
