[package]
name = "chip8"
version = "0.1.0"
edition = "2021"
publish = false

[dependencies]
rand = "0.8"
log = "0.4"
dotenv = "0.15"
env_logger = "0.9"
gilrs = "0.10"
gtk = "0.15"
sdl2 = "0.35"
