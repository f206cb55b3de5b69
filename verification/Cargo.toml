[package]
name = "tsp"
version = "0.1.0"
edition = "2021"
publish = false

[dependencies]
atty = "0.2"
better-panic = "0.3"
clap = { version = "4", features = ["derive"] }
clap-verbosity-flag = "2"
diff-struct = "0.5"
human-panic = "2"
indicatif = "0.17"
log = "0.4"
miette = "7"
num_cpus = "1"
serde = { version = "1", features = ["derive"] }
tokio = { version = "1", features = ["full"] }
toml = "0.8"
tracing = "0.1"
tracing-appender = "0.2"
tracing-log = "0.2"
tracing-subscriber = "0.3"
