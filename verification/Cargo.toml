[package]
name = "hello_params"
version = "0.1.0"
edition = "2021"
publish = false

[dependencies]
hyper = "=0.10.16"
iron = "=0.6.1"
lazy_static = "=1.5.1"
mime = "=0.2.6"
params = "=0.8.0"
router = "=0.6.0"
typemap = "=0.3.3"
urlencoded = "=0.6.0"
