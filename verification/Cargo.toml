[package]
name = "dataframe"
version = "0.1.0"
edition = "2021"
publish = false

[dependencies]
arrow = { version = "60.0.0", default-features = false, features = ["csv"] }
bstr = "=1.13.1"
snafu = "=0.9.2"
unicase = "=2.10.0"
