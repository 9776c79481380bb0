[package]
name = "rusty_tax_break"
version = "0.1.0"
edition = "2021"
publish = false

[dependencies]
time = { version = "*", features = ["formatting"] }
sanitize-filename = "*"
git2 = "*"
zip = "*"
toml = "*"
serde = { version = "*", features = ["derive"] }
dirs = "*"
tz-rs = "*"
