[package]
name = "amuseing"
version = "0.1.0"
edition = "2021"
publish = false

[dependencies]
cpal = "=0.15.3"
ringbuf = "=0.4.8"
rubato = "=0.15.0"
symphonia = "=0.5.5"
symphonia-bundle-mp3 = "=0.5.5"
triple_buffer = "=8.1.1"
