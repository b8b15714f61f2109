[package]
name = "stylenorm"
version = "0.1.0"
edition = "2021"
publish = false

[dependencies]
yew = "*"
stylist = { version = "*", features = ["yew_integration"] }
