[package]
name = "vesc_pilot"
version = "0.1.0"
edition = "2021"
publish = false

[dependencies]
dualshock4 = "*"
embedded-hal = "0.2"
hidapi = "*"
nb = "0.1"
serialport = "*"
vesc-comm = "*"
