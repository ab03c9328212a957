[package]
name = "bgg_top"
version = "0.1.0"
edition = "2021"
publish = false

[dependencies]
chrono = "*"
ctrlc = "*"
exitfailure = "*"
failure = "*"
reqwest = { version = "*", default-features = false, features = ["blocking"] }
rusqlite = { version = "*", features = ["bundled"] }
select = "*"
serde = { version = "*", features = ["derive"] }
serde_json = "*"
structopt = "*"
termcolor = "*"
threadpool = "*"
