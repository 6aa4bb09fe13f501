[package]
name = "mucs"
version = "0.1.0"
edition = "2021"
publish = false

[dependencies]
auto_impl = "0.3"
boolinator = "2"
chashmap = "2"
crossbeam = "0.4"
ctrlc = "3"
failure = "0.1"
futures = "0.1"
grpcio = "0.4"
log = "0.4"
parking_lot = "0.6"
pretty_env_logger = "0.2"
structopt = "0.2"
tap = "0.3"
tokio = "0.1"
try_from = "0.2"
