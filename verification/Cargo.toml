[package]
name = "partmesh"
version = "0.1.0"
edition = "2021"
publish = false

[dependencies]
rustc_apfloat = "=0.2.3"
ieee-apsqrt = "*"
softfp = "*"
thiserror = "=1.0.69"
