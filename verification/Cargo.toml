[package]
name = "vercel_ddns"
version = "0.1.0"
edition = "2021"
publish = false

[dependencies]
serde_json = "*"
serde = { version = "*", features = ["derive"] }
ureq = "*"
public-ip = "*"
futures = "*"
structopt = "*"
simplelog = "*"
log = "*"
eyre = "*"
