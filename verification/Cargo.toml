[package]
name = "pdf_page_text"
version = "0.1.0"
edition = "2021"
publish = false

[dependencies]
pdf-extract = "*"
js-sys = "*"
wasm-bindgen = "*"
