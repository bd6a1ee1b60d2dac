[package]
name = "scout"
version = "0.1.0"
edition = "2021"
publish = false

[dependencies]
cortex-m = { version = "=0.7.10", features = ["critical-section-single-core"] }
cortex-m-rt = "=0.7.7"
defmt = "=1.2.0"
defmt-rtt = "=1.3.1"
embassy-embedded-hal = "=0.6.0"
embassy-executor = { version = "=0.10.0", features = ["platform-spin", "executor-thread"] }
embassy-stm32 = { version = "=0.6.0", features = ["stm32f031c6", "time-driver-any", "unstable-pac", "exti"] }
embassy-sync = "=0.8.0"
embassy-time = "=0.5.1"
embedded-hal = "=1.0.0"
embedded-hal-async = "=1.0.0"
panic-probe = "=1.0.0"
static_cell = "=2.1.1"
