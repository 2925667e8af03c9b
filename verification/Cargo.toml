[package]
name = "chefi"
version = "0.1.0"
edition = "2021"
publish = false

[dependencies]
bodyparser = "0.8"
clap = "2"
error-chain = "0.11"
futures = "0.1"
iron = "0.6"
mount = "0.4"
rand = "0.4"
router = "0.6"
slog = "2"
sloggers = "0.2"
staticfile = "0.5"
structopt = "0.1"
structopt-derive = "0.1"
tokio-core = "0.1"
tokio-io = "0.1"
