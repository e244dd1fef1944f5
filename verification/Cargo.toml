[package]
name = "async_stm32f1xx"
version = "0.1.0"
edition = "2021"
publish = false

[dependencies]
as-slice = "=0.1.5"
cortex-m-rt = "=0.6.15"
embedded-hal = "=0.2.7"
futures = { version = "=0.3.34", default-features = false }
nb = "=0.1.3"
stm32f1xx-hal = { version = "=0.6.1", features = ["rt", "stm32f103", "medium"] }
void = { version = "=1.0.2", default-features = false }
