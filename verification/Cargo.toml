[package]
name = "cucumber_reporter"
version = "0.1.0"
edition = "2021"
publish = false

[dependencies]
filenamify = "=0.1.2"
gherkin = "=0.16.0"
cucumber = "=0.23.0"
handlebars = "=6.4.4"
rust-embed = "*"
serde = { version = "*", features = ["derive"] }
clap = { version = "*", features = ["derive"] }
