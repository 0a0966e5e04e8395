[package]
name = "pomodoro"
version = "0.1.0"
edition = "2021"
publish = false

[dependencies]
structopt = "*"
termion = "*"
notify-rust = "*"
