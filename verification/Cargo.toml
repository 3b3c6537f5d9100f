[package]
name = "token_player"
version = "0.1.0"
edition = "2021"
publish = false

[dependencies]
alsa = "=0.4.3"
argh = "=0.1.19"
lewton = "=0.10.2"
miniserde = "=0.1.46"
nix = "=0.17.0"
once_cell = "=1.21.4"
rfid-rs = "=0.1.3"
rppal = "=0.11.3"
spidev = "0.4"
