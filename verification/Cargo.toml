[package]
name = "zk_shell"
version = "0.1.0"
edition = "2021"
publish = false

[dependencies]
ansi_term = "*"
getopts = "*"
zookeeper = "*"
