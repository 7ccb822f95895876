[package]
name = "amm_sim_rs"
version = "0.1.0"
edition = "2021"
publish = false

[dependencies]
rand = "0.8"
rand_distr = "0.4"
rand_pcg = "0.3"
rayon = "1"
pyo3 = { version = "0.22", features = ["extension-module", "abi3-py38"] }
