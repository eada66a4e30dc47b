[package]
name = "nesmulator_gui"
version = "0.1.0"
edition = "2021"
publish = false

[dependencies]
log = "=0.4.34"
env_logger = "=0.9.3"
winit = "=0.26.1"
winit_input_helper = "=0.12.0"
pixels = "=0.9.0"
sdl2 = "=0.35.2"
spin_sleep = "=1.3.3"
clap = "=3.1.18"
