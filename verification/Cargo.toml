[package]
name = "trace_arith"
version = "0.1.0"
edition = "2021"
publish = false

[dependencies]
num-bigint = "0.4"
num-traits = "0.2"
halo2_proofs = "0.2"
wasmi = "0.11"
