[package]
name = "home_iot"
version = "0.1.0"
edition = "2021"
publish = false

[dependencies]
heapless = "=0.9.3"
nxp-pcf8523 = "=2.0.0"
packed_struct = "=0.12.0"
honeywell_mpr = "=0.1.0"
pmsa003i = "=0.1.11"
sx127xlora = "*"
defmt = "*"
defmt-rtt = "*"
panic-probe = "*"
static_cell = "*"
embedded-io-async = "*"
embassy-executor = "*"
embassy-sync = "*"
embassy-time = "*"
embassy-futures = "*"
embassy-embedded-hal = "*"
embassy-rp = "*"
