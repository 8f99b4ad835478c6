[package]
name = "gpxalyzer"
version = "0.1.0"
edition = "2021"
publish = false

[dependencies]
gpx = "=0.10.0"
chrono = "=0.4.45"
time = "*"
