[package]
name = "pico_lab"
version = "0.1.0"
edition = "2021"
publish = false

[dependencies]
cortex-m-rt = "=0.7.7"
defmt = "=0.3.101"
defmt-rtt = "=0.4.2"
display-interface = "=0.4.1"
embassy-embedded-hal = "=0.2.0"
embassy-executor = { version = "=0.6.3", features = ["arch-spin", "executor-thread"] }
embassy-futures = "=0.1.2"
embassy-rp = { version = "=0.2.0", features = ["defmt", "time-driver", "critical-section-impl"] }
embassy-sync = "=0.6.2"
embassy-time = "=0.3.2"
embedded-graphics = "0.7.1"
embedded-hal = "=1.0.0"
embedded-hal-async = "=1.0.0"
panic-probe = "=0.3.2"
rand = "=0.8.8"
st7789 = "=0.7.0"
