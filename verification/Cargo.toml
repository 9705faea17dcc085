[package]
name = "wiz_rpc"
version = "0.1.0"
edition = "2021"
publish = false

[dependencies]
serde = { version = "1", features = ["derive"] }
serde_json = "1"
rand = "0.8"
tokio = { version = "1", features = ["full"] }
socket2 = { version = "0.5", features = ["all"] }
uuid = { version = "1", features = ["v4"] }
lazy_static = "1"
macaddr = "1"
retry = "*"
thiserror = "1"
surge-ping = "*"
local-ip-address = "*"
optional_struct = "0.3"
field_types = "*"
debug-helper = "*"
strum_macros = "*"
