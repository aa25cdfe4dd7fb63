[package]
name = "step_by_step"
version = "0.1.0"
edition = "2021"
publish = false

[dependencies]
cosmwasm-std = "=0.16.7"
cw2 = "=0.8.1"
cw20 = "=0.8.1"
terra-cosmwasm = "=2.2.0"
terraswap = "=2.4.1"
serde = "1"
