[package]
name = "nes_avsync"
version = "0.1.0"
edition = "2021"
publish = false

[dependencies]
ludus = "*"
wasm-bindgen = "0.2"
web-sys = { version = "0.3", features = ["AudioBuffer", "AudioBufferSourceNode", "AudioContext", "AudioDestinationNode", "AudioNode", "AudioScheduledSourceNode", "BaseAudioContext", "CanvasRenderingContext2d", "EventTarget", "ImageData"] }
