[package]
name = "crev_util"
version = "0.1.0"
edition = "2021"
publish = false

[dependencies]
app_dirs = "1.2"
chrono = "0.4"
common_failures = "0.1"
failure = "0.1"
rpassword = "2"
rprompt = "1"
tempdir = "0.3"
