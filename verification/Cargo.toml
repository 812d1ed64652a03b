[package]
name = "dds_reader_core"
version = "0.1.0"
edition = "2021"
publish = false

[dependencies]
flume = "0.11"
futures = "0.3"
