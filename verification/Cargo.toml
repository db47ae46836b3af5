[package]
name = "lv_bevy_ecs"
version = "0.1.0"
edition = "2021"
publish = false

[dependencies]
syn = { version = "=2.0.119", features = ["full"] }
quote = "=1.0.47"
proc-macro2 = "=1.0.107"
Inflector = "=0.11.4"
log = "=0.4.34"
lightvgl-sys = "=9.5.5"
bevy_ecs = { version = "=0.18.1", default-features = false }
embedded-graphics = "=0.8.2"
embedded-time = "=0.12.1"
cstr_core = "=0.2.6"
ctor = "=1.0.13"

[dev-dependencies]
regex = "=1.13.1"
