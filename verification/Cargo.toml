[package]
name = "git_status_vars"
version = "1.0.0"
edition = "2021"
publish = false

[dependencies]
git2 = { version = "*", default-features = false }
duration-str = { version = "*", default-features = false }
clap = { version = "*", features = ["derive"] }
tracing = "*"
tracing-subscriber = "*"
nix = { version = "*", features = ["signal", "process"] }
libc = "*"

[dev-dependencies]
shell-words = "*"
tempfile = "*"
