[package]
name = "tuigreet"
version = "0.9.1"
edition = "2021"
publish = false

[dependencies]
ansi-to-tui = "4"
chrono = { version = "0.4", features = ["unstable-locales"] }
crossterm = { version = "0.27", features = ["event-stream"] }
futures = "0.3"
getopts = "0.2"
greetd_ipc = { version = "0.10", features = ["tokio-codec"] }
i18n-embed = { version = "0.14", features = ["desktop-requester"] }
nix = { version = "0.28", features = ["feature"] }
rand = "0.8"
ratatui = { version = "0.26", default-features = false, features = ["crossterm", "unstable-rendered-line-info"] }
rust-ini = "0.21"
serde = { version = "1", features = ["derive"] }
tokio = { version = "1", default-features = false, features = ["macros", "rt-multi-thread", "net", "sync", "time", "process"] }
toml = "0.8"
tracing = "0.1"
tracing-appender = "0.2"
tracing-subscriber = "0.3"
utmp-rs = "0.3"
uzers = "0.12"
zeroize = "1"
