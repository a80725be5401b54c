[package]
name = "modbusgw"
version = "1.0.1"
edition = "2021"
publish = false

[dependencies]
crc16 = "0.4"
serial = "0.4"
argparse = "0.2"
