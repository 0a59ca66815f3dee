[package]
name = "control_core"
version = "0.1.0"
edition = "2021"
publish = false

[dependencies]
alt-stm32f30x-hal = { version = "=0.44.0", features = ["rt", "stm32f303"] }
cortex-m = "0.7"
cortex-m-rt = "0.7"
embedded-hal = "0.2"
mpu9250 = "=0.25.0"
nb = "1"
