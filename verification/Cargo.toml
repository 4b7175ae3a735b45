[package]
name = "pathfinder_demo"
version = "0.1.0"
edition = "2021"
publish = false

[dependencies]
clap = "=2.34.0"
euclid = "=0.22.14"
gl = "=0.14.0"
jemallocator = "=0.5.4"
pathfinder_color = "=0.5.0"
pathfinder_content = "=0.5.0"
pathfinder_geometry = "=0.5.1"
pathfinder_gl = "=0.5.0"
pathfinder_gpu = "=0.5.0"
pathfinder_renderer = "=0.5.0"
pathfinder_resources = "=0.5.0"
pathfinder_svg = "=0.5.0"
pathfinder_ui = "=0.5.0"
rayon = "=1.12.0"
sdl2 = "=0.38.0"
usvg = "=0.9.1"
