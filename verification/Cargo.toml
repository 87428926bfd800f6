[package]
name = "fetch_feed"
version = "0.1.0"
edition = "2021"
publish = false

[dependencies]
ammonia = "*"
dateparser = "*"
syndication = "*"
atom_syndication = "0.6"
rss = "1.5"
reqwest = { version = "*", default-features = false }
tokio = { version = "*", features = ["rt-multi-thread", "macros", "time"] }

[dev-dependencies]
serde_json = "*"
