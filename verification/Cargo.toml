[package]
name = "embsens"
version = "0.1.0"
edition = "2021"
publish = false

[dependencies]
anyhow = "1"
embassy-embedded-hal = "*"
embassy-executor = "*"
embassy-net = { version = "*", features = ["proto-ipv4", "medium-ethernet", "tcp", "dhcpv4"] }
embassy-sync = "*"
embassy-time = "*"
embedded-io = "*"
embedded-svc = "*"
heapless = "=0.7.17"
icm42670 = "*"
log = "0.4"
mqttrust = "=0.6.0"
shtcx = "*"
static_cell = "*"
