[package]
name = "app_finder"
version = "0.1.0"
edition = "2021"
publish = false

[dependencies]
regex = "=1.13.1"
gio = "=0.8.1"
glib = "=0.9.3"
gtk = { version = "=0.8.1", features = ["v3_16"] }
gdk-pixbuf = { version = "=0.8.0", features = ["v2_32"] }
cascade = "=0.1.4"
