[package]
name = "bootsys"
version = "0.1.0"
edition = "2021"
publish = false

[dependencies]
uart_16550 = "*"
ufmt = "*"
