[package]
name = "mandelbrot_term"
version = "0.1.0"
edition = "2021"
publish = false

[dependencies]
terminal_graphics = "0.2.1"
termion = "=4.0.6"
