[package]
name = "sys_abi"
version = "0.1.0"
edition = "2021"
publish = false
