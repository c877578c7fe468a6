[package]
name = "audio_latency_tester"
version = "0.1.0"
edition = "2021"
publish = false

[dependencies]
resampler = "*"
evdev = "*"
hound = "*"
cpal = "*"
pipewire = "*"
serde = { version = "1", features = ["derive"] }
toml = "*"
clap = { version = "4", features = ["derive"] }
snafu = "*"
tracing = "*"
tracing-subscriber = "*"
