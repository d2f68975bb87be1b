[package]
name = "portal_renderer"
version = "0.1.0"
edition = "2021"
publish = false

[dependencies]
gl33 = "*"
glutin = "0.29"
image = { version = "0.24", default-features = false, features = ["jpeg", "png"] }
nalgebra = "0.32"
nalgebra-glm = "0.18"
tobj = "3"
