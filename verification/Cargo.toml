[package]
name = "iris"
version = "0.1.0"
edition = "2021"
publish = false

[dependencies]
image = { version = "0.25", default-features = false, features = ["png", "jpeg", "gif", "webp", "tiff", "bmp"] }
wgpu = "22"
glam = "0.29"
bytemuck = { version = "1", features = ["derive"] }
futures = "0.3"
rayon = "1"
gtk4 = { version = "0.9", features = ["v4_12"] }
libadwaita = { version = "0.7", features = ["v1_4"] }
