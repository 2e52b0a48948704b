[package]
name = "gtk_window"
version = "0.1.0"
edition = "2021"
publish = false

[dependencies]
cairo-rs = { version = "=0.16.7", default-features = false }
gdk-sys = "=0.16.0"
glib-sys = "=0.16.3"
gtk = "=0.16.2"
instant = "=0.1.13"
kurbo = "=0.9.5"
piet = "=0.6.2"
piet-cairo = "=0.6.2"
raw-window-handle = "=0.3.4"
tracing = "=0.1.44"
