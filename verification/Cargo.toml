[package]
name = "pico_timing"
version = "0.1.0"
edition = "2021"
publish = false

[dependencies]
cortex-m = "=0.7.10"
cortex-m-rt = "=0.7.7"
defmt = "=1.2.0"
defmt-rtt = "=1.3.1"
embassy-executor = { version = "=0.9.1", features = ["executor-thread"] }
embassy-futures = "=0.1.2"
embassy-time = { version = "=0.5.1", features = ["tick-hz-1_000_000"] }
embedded-hal = "=1.0.0"
panic-probe = "=1.0.0"
