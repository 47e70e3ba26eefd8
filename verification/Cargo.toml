[package]
name = "chat_bridge"
version = "0.1.0"
edition = "2021"
publish = false

[dependencies]
openai-api-rs = "6"
rumqttc = "0.24"
tokio = { version = "1", features = ["macros", "rt-multi-thread", "time"] }
