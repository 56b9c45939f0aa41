[package]
name = "contemplate"
version = "0.1.0"
edition = "2021"
publish = false

[dependencies]
clap = { version = "=4.6.7", features = ["cargo"] }
fs_extra = "=1.3.0"
git2 = { version = "=0.21.0", features = ["https"] }
phf = { version = "=0.11.3", features = ["macros"] }
rand = "=0.8.8"
url = "=2.5.8"

[dev-dependencies]
phf_generator = "=0.11.3"
