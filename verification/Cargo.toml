[package]
name = "amber"
version = "0.1.0"
edition = "2021"
publish = false

[dependencies]
wildmatch = "*"
regex = "*"
heraclitus-compiler = "*"
colored = "*"
clap = { version = "4", features = ["derive"] }
clap_complete = "4"
similar-string = "*"
serde = { version = "1", features = ["derive"] }
rmp-serde = "*"
home = "*"
