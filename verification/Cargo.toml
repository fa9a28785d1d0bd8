[package]
name = "java_logger"
version = "0.1.0"
edition = "2021"
publish = false

[dependencies]
jni = "0.19"
thiserror = "1"
