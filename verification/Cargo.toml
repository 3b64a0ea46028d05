[package]
name = "semaforo_devs"
version = "0.1.0"
edition = "2021"
publish = false

[dependencies]
fmi = "*"
fmi-export = "*"
libloading = "*"
