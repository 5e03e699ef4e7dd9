[package]
name = "toster"
version = "0.1.0"
edition = "2021"
publish = false

[dependencies]
nix = { version = "*", features = ["signal", "process"] }
colored = "*"
directories = "*"
human-sort = "*"
is_executable = "*"
memfile = "*"
os_pipe = "*"
command-fds = "*"
wait-timeout = "*"
tempfile = "*"
ctrlc = "*"
clap = { version = "*", features = ["derive"] }
rayon = "*"
indicatif = { version = "*", features = ["rayon"] }
comfy-table = "*"
terminal_size = "*"
