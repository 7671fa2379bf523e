[package]
name = "draconis"
version = "0.1.0"
edition = "2021"
publish = false

[dependencies]
unicode-segmentation = "=1.13.3"
unicode-width = "=0.1.11"
substring = "=1.4.5"
chrono = "=0.4.45"
tokio = { version = "=1.53.2", features = ["full"] }
toml = "=0.5.11"
serde = { version = "=1.0.229", features = ["derive"] }
tracing = "=0.1.44"
argparse = "=0.2.2"
text_io = "=0.1.13"
dirs = "=4.0.0"
colored = "=2.2.0"
sys-info = "=0.9.1"
sysinfo = "=0.29.11"
systemstat = "=0.2.7"
users = "=0.11.0"
whoami = "=1.6.1"
mpris = "=2.1.0"
openweathermap = "=0.2.4"
