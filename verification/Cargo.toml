[package]
name = "button_relay"
version = "0.1.0"
edition = "2021"
publish = false

[dependencies]
ezsockets = "=0.7.2"
tokio = { version = "=1.53.2", features = ["full"] }
async-trait = "=0.1.92"
gilrs = "=0.11.2"
inputbot = "=0.6.0"

[dev-dependencies]
futures = "=0.3.34"
enfync = "=0.1.6"
