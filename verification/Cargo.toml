[package]
name = "vproxy"
version = "0.1.0"
edition = "2021"
publish = false

[dependencies]
bytes = "1"
daemonize = "0.5"
http = "1"
http-body-util = "0.1"
hyper = { version = "1", features = ["http1", "http2", "server", "client"] }
hyper-util = { version = "0.1", features = ["http1", "http2", "server", "server-auto", "service", "tokio"] }
nix = { version = "0.29", features = ["signal", "user"] }
sysinfo = { version = "0.33", default-features = false, features = ["system"] }
tokio = { version = "1", features = ["io-util", "macros", "net", "rt", "rt-multi-thread", "time"] }
tracing = "0.1"
