[package]
name = "android_base"
version = "0.1.0"
edition = "2021"
publish = false

[dependencies]
android_glue = "0.2.3"
glutin = "0.19.0"
pistoncore-glutin_window = "0.54"
piston2d-graphics = "0.31.0"
piston = "0.42.0"
shader_version = "0.3.0"
