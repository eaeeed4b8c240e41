[package]
name = "modu"
version = "2.2.0"
edition = "2021"
publish = false

[dependencies]
argon2 = "0.5"
base16 = "0.2"
base64 = "0.22"
bcrypt = "0.15"
blake3 = { version = "1", default-features = false, features = ["pure", "std"] }
chrono = "0.4"
colored = "2"
libloading = "0.8"
md5 = "0.7"
rand = "0.8"
reqwest = { version = "0.12", default-features = false, features = ["blocking"] }
rouille = "3"
scrypt = "0.11"
sha2 = "0.10"
