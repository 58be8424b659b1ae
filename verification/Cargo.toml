[package]
name = "xcnotary"
version = "0.1.0"
edition = "2021"
publish = false

[dependencies]
console = "=0.15.11"
indicatif = "=0.15.0"
plist = { version = "=1.10.3", default-features = false, features = ["enable_unstable_features_that_may_break_with_minor_version_bumps"] }
reqwest = { version = "=0.12.28", default-features = false, features = ["blocking", "rustls-tls"] }
structopt = "=0.3.26"
tempfile = "=3.27.0"
