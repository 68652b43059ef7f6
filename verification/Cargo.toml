[package]
name = "cadence"
version = "0.1.0"
edition = "2021"
publish = false

[dependencies]
log = "=0.4.34"
num_cpus = "=1.17.0"
threadpool = "=1.8.1"
