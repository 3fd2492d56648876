[package]
name = "codegenlib"
version = "0.1.0"
edition = "2021"
publish = false

[dependencies]
iced-x86 = { version = "*", default-features = false, features = ["std", "block_encoder", "instr_info"] }
formatic = "=0.1.1"
