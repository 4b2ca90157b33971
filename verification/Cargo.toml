[package]
name = "todo_tui"
version = "0.1.0"
edition = "2021"
publish = false

[dependencies]
structopt = "=0.3.26"
termion = "=1.5.6"
tui = { version = "=0.19.0", default-features = false, features = ["termion"] }
serde = { version = "=1.0.229", features = ["derive"] }
serde_json = "=1.0.151"
