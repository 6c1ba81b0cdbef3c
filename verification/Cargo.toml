[package]
name = "codestyle"
version = "0.1.0"
edition = "2021"
publish = false

[dependencies]
yew = { version = "=0.21.0", features = ["csr"] }
web-sys = { version = "=0.3.106", features = ["Window", "Document", "Element", "Storage", "HtmlInputElement"] }
gloo-storage = "=0.3.0"
log = "=0.4.34"
js-sys = "=0.3.106"
