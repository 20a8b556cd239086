[package]
name = "chromebook_audio"
version = "0.1.0"
edition = "2021"
publish = false

[dependencies]
serde_json = "1"
libc = "0.2"
fuser = { version = "0.14", default-features = false }
tokio = { version = "1", features = ["macros", "rt-multi-thread"] }
async-fs = "2"
async-process = "2"
cp_r = "0.5"
ctrlc = "3"
parking = "2"
