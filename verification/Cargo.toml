[package]
name = "testify"
version = "0.1.0"
edition = "2021"
publish = false

[dependencies]
arbitrary = "1"
rand = "0.8"
syn = { version = "2", features = ["full", "extra-traits", "visit"] }
quote = "1"
proc-macro2 = { version = "1", features = ["span-locations"] }
prettyplease = "0.2"
serde = { version = "1", features = ["derive"] }
serde_json = "1"
toml = "0.8"
clap = { version = "4", features = ["derive"] }
colored = "2"
which = "*"
tracing = "0.1"
tracing-subscriber = { version = "0.3", features = ["env-filter"] }
thiserror = "1"
hax-frontend-exporter = { version = "*", default-features = false }
reqwest = { version = "0.12", default-features = false, features = ["blocking", "json"] }
serde-jsonlines = "*"
