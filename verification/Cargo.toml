[package]
name = "rscope"
version = "0.1.0"
edition = "2021"
publish = false

[dependencies]
getopts = "=0.2.24"
chan = "=0.1.23"
chan-signal = "=0.3.3"
jack = "=0.5.7"
gfx = "=0.18.3"
gfx_window_glutin = "=0.31.0"
gfx_device_gl = "=0.16.2"
glutin = "=0.21.2"
structopt = "=0.3.26"
