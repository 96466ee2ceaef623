[package]
name = "vex2pdf"
version = "0.9.2"
edition = "2021"
publish = false

[dependencies]
clap = { version = "=4.6.7", features = ["derive", "env"] }
cyclonedx-bom = "=0.8.1"
env_logger = "=0.11.11"
genpdf = "=0.2.0"
jlizard-simple-threadpool = "=0.1.1"
log = "=0.4.34"
serde_json = "=1.0.154"

[dev-dependencies]
tempfile = "=3.27.0"
