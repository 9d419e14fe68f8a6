[package]
name = "bytes_encrypter"
version = "0.1.0"
edition = "2021"
publish = false

[dependencies]
base64 = "=0.21.7"
fernet = { version = "=0.2.2", default-features = false, features = ["rustcrypto"] }
pbkdf2 = "=0.12.2"
rand = "=0.8.8"
sha2 = { version = "=0.10.9", features = ["force-soft"] }
