[package]
name = "lvgl"
version = "0.1.0"
edition = "2021"
publish = false

[dependencies]
cstr_core = "0.2"
cty = "0.2"
embedded-graphics = "0.6"
heapless = "0.7"
lvgl-sys = "0.5"
parking_lot = "0.11"
