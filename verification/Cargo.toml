[package]
name = "stackboxes"
version = "0.1.0"
edition = "2021"
publish = false

[dependencies]
image = "=0.24.9"
lewton = "=0.10.2"
glium = "=0.36.0"
glium_text = "=0.14.0"
cpal = "=0.18.2"
