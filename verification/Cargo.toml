[package]
name = "telefetch"
version = "0.1.0"
edition = "2021"
publish = false

[dependencies]
url = "=2.5.8"
tokio-util = "=0.7.19"
grammers-client = "=0.10.0"
grammers-tl-types = "=0.10.0"
glass_pumpkin = "=2.0.0-rc0"
tokio = { version = "=1.53.2", features = ["full"] }
dotenv = "=0.15.0"
log = "=0.4.34"
simple_logger = "=5.2.0"
fs2 = "=0.4.3"
local-ip-address = "=0.6.13"
