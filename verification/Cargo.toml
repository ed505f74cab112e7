[package]
name = "co2_monitor"
version = "0.1.0"
edition = "2021"
publish = false

[dependencies]
heapless = "=0.8.0"
embassy-executor = "=0.10.0"
embassy-sync = "=0.8.0"
embassy-time = "=0.5.1"
embedded-graphics = "=0.8.2"
embedded-hal-async = "=1.0.0"
ens160-aq = { version = "=0.2.12", default-features = false, features = ["async"] }
esp-bootloader-esp-idf = { version = "=0.6.0", features = ["esp32c6"] }
esp-hal = { version = "=1.2.2", features = ["esp32c6", "unstable"] }
esp-println = { version = "=0.18.0", features = ["esp32c6", "log-04"] }
esp-rtos = { version = "=0.4.0", features = ["esp32c6", "embassy", "log-04"] }
log = "=0.4.34"
ssd1306 = { version = "=0.10.0", features = ["async"] }
static_cell = "=2.1.1"
