[package]
name = "rusty_hpsdr"
version = "0.1.0"
edition = "2021"
publish = false

[dependencies]
serde = { version = "1", features = ["derive"] }
ron = "*"
dirs = "*"
nix = { version = "*", features = ["socket", "net"] }
network-interface = "*"
alsa = "*"
gtk4 = "*"
glib = "*"
gdk-pixbuf = "*"
pangocairo = "*"
