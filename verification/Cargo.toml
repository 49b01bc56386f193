[package]
name = "starkmint"
version = "0.1.0"
edition = "2021"
publish = false

[dependencies]
sha2 = "*"
clap = { version = "*", features = ["derive", "env"] }
color-eyre = "*"
futures = "*"
tendermint = "*"
tendermint-rpc = { version = "*", features = ["http-client"] }
tokio = { version = "*", features = ["macros", "rt-multi-thread"] }
tower = { version = "*", features = ["buffer", "load-shed", "limit", "util"] }
tower-abci = "*"
tracing = "*"
tracing-subscriber = { version = "*", features = ["env-filter"] }
