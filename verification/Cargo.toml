[package]
name = "quantel_connect"
version = "0.2.1"
edition = "2021"
publish = false

[dependencies]
tini = "*"
kuchiki = "0.8"
clap = "3"
reqwest = { version = "*", default-features = false, features = ["blocking", "cookies", "rustls-tls"] }
