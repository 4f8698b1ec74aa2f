[package]
name = "rsdroid"
version = "0.1.0"
edition = "2021"
publish = false

[dependencies]
inflections = "=1.1.1"
serde = { version = "1", features = ["derive"] }
serde_json = "1"
prost = "0.14"
prost-reflect = "0.16"
anyhow = "1"
glob = "0.3"
gag = "1"
tracing = "0.1"
log = "0.4"
android_logger = "0.15"
once_cell = "1"
jni = "0.21"
libc = "0.2"
camino = "1"
streaming-iterator = "0.1"
tree-sitter = "*"
tree-sitter-typescript = "*"
tree-sitter-svelte-ng = "*"
