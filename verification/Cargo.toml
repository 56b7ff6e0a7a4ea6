[package]
name = "parakeet_writer"
version = "0.1.0"
edition = "2021"
publish = false

[dependencies]
anyhow = "1"
clap = { version = "4", features = ["derive"] }
cpal = "=0.15.3"
ctrlc = "3"
dirs = "6"
env_logger = "0.11"
evdev = "=0.12.2"
flate2 = "1"
libc = "0.2"
log = "0.4"
nix = { version = "=0.29.0", features = ["fs"] }
ollama-rs = "=0.3.6"
reqwest = "=0.12.28"
tar = "0.4"
tempfile = "3"
tokio = { version = "1", features = ["macros", "rt-multi-thread", "sync", "time", "process"] }
transcribe-rs = { version = "=0.3.12", features = ["onnx"] }
ureq = "=3.4.2"
