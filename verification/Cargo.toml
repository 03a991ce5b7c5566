[package]
name = "room_pill"
version = "0.1.0"
edition = "2021"
publish = false

[dependencies]
nb = "=1.1.0"
num-traits = { version = "=0.2.19", default-features = false }
embedded-hal = "=0.2.7"
cortex-m = "=0.7.10"
stm32f1xx-hal = { version = "=0.10.0", features = ["stm32f103", "rt"] }
onewire = "=0.4.0"
bxcan = "=0.7.0"
