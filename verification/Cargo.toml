[package]
name = "sysdash"
version = "0.1.0"
edition = "2021"
publish = false

[dependencies]
sysinfo = "0.31"
ratatui = "0.28"
tui-scrollview = "0.4"
crossterm = { version = "0.28", features = ["event-stream"] }
tokio = { version = "1", features = ["macros", "rt-multi-thread", "time"] }
futures = "0.3"
log = "0.4"
flexi_logger = "*"
thiserror = "1"
