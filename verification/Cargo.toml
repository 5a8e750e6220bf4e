[package]
name = "hls_player"
version = "0.1.0"
edition = "2021"
publish = false

[dependencies]
hls_m3u8 = "=0.7.0"
mpeg2ts = "=0.1.1"
mse_fmp4 = "=0.2.0"
url = "=2.5.8"
