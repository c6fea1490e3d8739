[package]
name = "lockbook_workspace"
version = "0.1.0"
edition = "2021"
publish = false

[dependencies]
egui = "0.28"
tracing = "0.1"
