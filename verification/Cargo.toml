[package]
name = "audio_virtualizer"
version = "0.1.0"
edition = "2021"
publish = false

[dependencies]
realfft = "3"
num-complex = "0.4"
num-traits = "0.2"
concurrent-queue = "2"
ringbuf = "0.4"
hound = "3"
cpal = "*"
serde = { version = "1", features = ["derive"] }
serde_json = "1"
directories = "*"
