[package]
name = "font_raster"
version = "0.1.0"
edition = "2021"
publish = false

[dependencies]
dwrote = "0.11"
log = "0.4"
winapi = { version = "0.3", features = ["dwrite", "dwrite_1", "dwrite_2", "dwrite_3", "ntdef", "winerror", "unknwnbase", "winnls"] }
wio = "0.2"
