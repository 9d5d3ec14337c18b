[package]
name = "can_dc_fc"
version = "0.1.0"
edition = "2021"
publish = false

[dependencies]
arraydeque = "=0.4.5"
heapless = { version = "=0.5.6", features = ["ufmt-impl"] }
ufmt = { version = "=0.1.2", features = ["std"] }
bxcan = "=0.7.0"
cortex-m = "=0.7.10"
cortex-m-rt = "=0.7.7"
stm32f7xx-hal = { version = "=0.8.0", features = ["stm32f767", "has-can", "rt"] }
