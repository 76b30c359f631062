[package]
name = "opengl_book_examples"
version = "0.1.0"
edition = "2021"
publish = false

[dependencies]
gl = "=0.14.0"
glam = "=0.30.10"
glfw = { version = "=0.63.0", default-features = false }
image = { version = "=0.25.10", default-features = false, features = ["jpeg", "png"] }
