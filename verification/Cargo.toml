[package]
name = "lower_triangular_correlate"
version = "0.1.0"
edition = "2021"
publish = false

[dependencies]
burn-fusion = { version = "=0.21.0", default-features = false, features = ["std"] }
burn-ir = { version = "=0.21.0", default-features = false, features = ["std"] }
burn-std = { version = "=0.21.0", default-features = false, features = ["cubecl", "std"] }
cubecl = { version = "=0.10.0", default-features = false }
serde = { version = "1", features = ["derive"] }
