[package]
name = "ebpf_tool"
version = "0.1.0"
edition = "2021"
publish = false

[dependencies]
anyhow = "=1.0.104"
aya = { version = "*", features = ["async_tokio"] }
aya-ebpf = "=0.1.1"
aya-log-ebpf = "=0.1.0"
bytes = "1"
clap = { version = "=4.6.7", features = ["derive"] }
env_logger = "=0.11.11"
log = "=0.4.34"
nix = { version = "=0.31.3", features = ["feature", "hostname", "process", "sched", "signal", "user"] }
thiserror = "=2.0.21"
tokio = { version = "=1.54.1", features = ["macros", "rt-multi-thread", "signal", "sync", "time"] }
