[package]
name = "uart_bridge"
version = "0.1.0"
edition = "2021"
publish = false

[dependencies]
coap-lite = "*"
embassy-executor = "*"
embassy-net = { version = "*", features = ["dhcpv4", "udp", "proto-ipv4", "medium-ethernet"] }
embassy-time = "*"
embedded-io-async = "*"
embedded-svc = "*"
esp-alloc = "*"
esp-backtrace = "*"
esp-println = "*"
esp-wifi = "*"
esp32c3-hal = "*"
log = "*"
static_cell = "*"
