[package]
name = "veriwasm"
version = "0.1.0"
edition = "2021"
publish = false

[dependencies]
petgraph = "=0.6.5"
itertools = "=0.9.0"
log = "=0.4.35"
env_logger = "=0.8.4"
clap = "=2.34.0"
serde_json = "=1.0.154"
byteorder = "=1.5.0"
goblin = "=0.2.3"
elfkit = "=0.0.7"
lucet-module = "=0.6.1"
yaxpeax-x86 = "=0.1.5"
yaxpeax-arch = "=0.0.4"
capstone = "=0.8.0"
wasmtime-environ = "=0.26.1"
