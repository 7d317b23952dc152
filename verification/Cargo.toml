[package]
name = "dsn"
version = "0.1.0"
edition = "2021"
publish = false

[dependencies]
convert_case = "0.6"
pyo3 = "*"
ariadne = "0.4"

[dev-dependencies]
chumsky = "0.9"
