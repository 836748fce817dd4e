[package]
name = "docx2md"
version = "0.1.0"
edition = "2021"
publish = false

[dependencies]
rs-docx = "*"
