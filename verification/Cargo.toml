[package]
name = "rk3568_driver"
version = "0.1.0"
edition = "2021"
publish = false

[dependencies]
log = "=0.4.34"
rdif-block = "0.2"
rdif-clk = "0.1"
rdrive = "0.14"
rk3568_clk = "=0.1.0"
sdmmc = "=0.1.0"
