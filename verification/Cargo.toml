[package]
name = "hello_plus"
version = "0.1.0"
edition = "2021"
publish = false

[dependencies]
conrod_core = "=0.62.0"
conrod_glium = "=0.62.0"
env_logger = "=0.9.3"
find_folder = "=0.3.0"
glium = "=0.23.0"
image = { version = "=0.24.9", default-features = false, features = ["jpeg", "png"] }
log = "=0.4.34"
reqwest = { version = "=0.11.27", default-features = false, features = ["blocking", "json", "rustls-tls"] }
serde_json = "=1.0.154"
