[package]
name = "greeter"
version = "0.1.0"
edition = "2021"
publish = false

[dependencies]
greetd_ipc = { version = "0.8", features = ["sync-codec"] }
gtk = "0.9"
pango = "0.9"
relm = "0.21"
relm-derive = "0.21"
gtk-layer-shell = "0.1"
dbus = "0.9"
