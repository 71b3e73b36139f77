[package]
name = "oxigraph"
version = "0.1.0"
edition = "2021"
publish = false

[dependencies]
quick-xml = "*"
rio_turtle = "0.8"
rio_xml = "0.8"

[dev-dependencies]
rio_api = "0.8"
