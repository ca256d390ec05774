[package]
name = "svg_to_pdf"
version = "0.1.0"
edition = "2021"
publish = false

[dependencies]
actix-multipart = "=0.8.5"
actix-web = { version = "=4.18.1", default-features = false, features = ["macros"] }
chromiumoxide = { version = "=0.8.0", default-features = false, features = ["tokio-runtime"] }
chromiumoxide_cdp = "=0.8.0"
futures = "=0.3.34"
serde = { version = "=1.0.229", features = ["derive"] }
tokio = { version = "=1.54.1", features = ["rt", "rt-multi-thread"] }
