[package]
name = "imu_core"
version = "0.1.0"
edition = "2021"
publish = false

[dependencies]
clap = "2"
i2cdev = "0.5"
linux-embedded-hal = "0.3"
mpu6050 = "0.1"
serde = { version = "1", features = ["derive"] }
serde_json = "1"
