[package]
name = "pagefind_php"
version = "0.1.0"
edition = "2021"
publish = false

[dependencies]
ext-php-rs = "*"
tokio = { version = "1", features = ["rt-multi-thread"] }
