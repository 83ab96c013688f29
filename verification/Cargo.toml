[package]
name = "trackcard"
version = "0.1.0"
edition = "2021"
publish = false

[dependencies]
image = "=0.24.9"
imageproc = "=0.23.1"
rusttype = "=0.9.3"
palette = "=0.7.7"
kmeans_colors = "=0.6.0"
textwrap = "=0.16.4"

[dev-dependencies]
ttf-noto-sans = "=0.1.2"
