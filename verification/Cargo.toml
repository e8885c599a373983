[package]
name = "microinit"
version = "0.1.0"
edition = "2021"
publish = false

[dependencies]
csv = "*"
exec = "*"
glob = "*"
libc = "*"
log = "*"
nix = { version = "*", features = ["fs", "mount", "hostname", "process", "signal"] }
prctl = "*"
procfs = "*"
rlimit = "*"
serde = { version = "*", features = ["derive"] }
simplelog = "*"
system_shutdown = "*"
toml = "*"
wait-timeout = "*"
walkdir = "*"
