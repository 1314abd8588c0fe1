[package]
name = "timeular_reader"
version = "0.1.0"
edition = "2021"
publish = false

[dependencies]
async-trait = "*"
btleplug = "*"
chrono = "0.4"
clap = { version = "4", features = ["derive"] }
futures = "*"
log = "*"
reqwest = { version = "*", default-features = false, features = ["json", "cookies"] }
reqwest_cookie_store = "*"
rpassword = "*"
serde = { version = "1", features = ["derive"] }
serde_derive = "1"
simplelog = "*"
strum = { version = "*", features = ["derive"] }
tinytemplate = "1"
tokio = { version = "1", features = ["rt-multi-thread", "macros"] }
toml = "*"
