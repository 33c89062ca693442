[package]
name = "hexplot"
version = "0.1.0"
edition = "2021"
publish = false

[dependencies]
plotters = { version = "=0.3.7", default-features = false, features = ["bitmap_backend", "bitmap_encoder", "full_palette", "ttf"] }
rgb = "=0.8.53"
slint = { version = "=1.18.1", default-features = false, features = ["std", "compat-1-2"] }
