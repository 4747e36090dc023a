[package]
name = "tubefeeder"
version = "0.1.0"
edition = "2021"
publish = false

[dependencies]
regex = "1"
gtk = "0.9"
libhandy = "0.7"
relm = "0.21"
relm-derive = "0.21"
