[package]
name = "tabbed_document_ui"
version = "0.1.0"
edition = "2021"
publish = false

[dependencies]
indexmap = "2"
slotmap = "1"
thiserror = "1"
serde = { version = "1", features = ["derive"] }
serde_json = "1"
rfd = "0.15"
async-std = "1"
