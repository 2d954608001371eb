[package]
name = "hd2re"
version = "0.1.0"
edition = "2021"
publish = false

[dependencies]
speedy = "=0.8.7"
magic = "=0.16.7"
ort = { version = "=2.0.0-rc.2", default-features = false, features = ["load-dynamic"] }
ort-sys = { version = "=2.0.0-rc.2", default-features = false, features = ["load-dynamic"] }
