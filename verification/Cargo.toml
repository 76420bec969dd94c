[package]
name = "gitnote_sync"
version = "0.1.0"
edition = "2021"
publish = false

[dependencies]
git2 = { version = "*", features = ["ssh_key_from_memory"] }
libgit2-sys = "*"
jni = "0.21"
log = "0.4"
android_logger = "*"
anyhow = "1"
ssh-key = { version = "0.6", features = ["ed25519", "rand_core"] }
rand_core = { version = "0.6", features = ["getrandom"] }
zeroize = "1"
include-lines = "*"
