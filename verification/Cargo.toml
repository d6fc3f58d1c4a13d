[package]
name = "wifinina"
version = "0.1.0"
edition = "2021"
publish = false

[dependencies]
httparse = "=1.10.1"
embedded-hal = { version = "=0.2.7", features = ["unproven"] }
nb = "=1.1.0"
genio = "=0.2.1"
void = "=1.0.2"
