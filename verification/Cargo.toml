[package]
name = "ficon"
version = "0.1.0"
edition = "2021"
publish = false

[dependencies]
glob = "0.3"
regex = "1"
serde = { version = "1", features = ["derive"] }
toml = "*"
structopt = "0.3"
ignore = "*"
termion = "*"
exitcode = "*"
