[package]
name = "pomodoro"
version = "0.1.0"
edition = "2021"
publish = false

[dependencies]
argh = "*"
chrono = "*"
ctrlc = "*"
log = "*"
serde_json = "*"
stderrlog = "*"
ureq = { version = "*", features = ["json"] }
url = "*"
