[package]
name = "calico"
version = "0.1.0"
edition = "2021"
publish = false

[dependencies]
object = { version = "=0.40.0", features = ["write"] }
serde = { version = "=1.0.229", features = ["derive"] }
serde_json = "=1.0.154"
clap = { version = "=4.6.7", features = ["derive", "cargo"] }
color-eyre = "=0.6.5"
env_logger = "=0.11.11"
log = "=0.4.35"
tokio = { version = "=1.54.1", features = ["macros", "rt-multi-thread"] }
owo-colors = "=4.4.0"
anstyle = "=1.0.14"
postcard-schema = { version = "=0.2.5", features = ["derive", "use-std"] }
syn = { version = "=2.0.119", features = ["full"] }
quote = "=1.0.47"
proc-macro2 = "=1.0.107"
darling = "=0.24.1"
proc-macro-error2 = "=2.0.1"
probe-rs = "=0.32.0"
