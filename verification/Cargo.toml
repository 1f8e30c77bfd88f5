[package]
name = "weather-rs"
version = "0.1.0"
edition = "2021"
publish = false

[dependencies]
anyhow = "1"
async-trait = "0.1"
chrono = "0.4"
clap = { version = "4", features = ["derive"] }
confy = "0.5"
convert_case = "0.6"
dateparser = "0.2"
indicatif = "0.17"
narrate = "0.4"
owo-colors = "3"
prettytable-rs = "0.10"
reqwest = "0.11"
serde = { version = "1", features = ["derive"] }
serde_json = "1"
smart-default = "0.7"
thiserror = "1"
tokio = { version = "1", features = ["macros", "rt-multi-thread"] }
