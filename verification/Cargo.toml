[package]
name = "doukutsu_rs"
version = "0.1.0"
edition = "2021"
publish = false

[dependencies]
imgui = "0.6"
imgui-sdl2 = "0.13"
log = "0.4"
sdl2 = { version = "0.34", features = ["unsafe_textures", "gfx"] }
