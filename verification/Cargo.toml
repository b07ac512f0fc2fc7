[package]
name = "agentai"
version = "0.1.0"
edition = "2021"
publish = false

[dependencies]
anyhow = "=1.0.104"
genai = "=0.3.5"
heck = "0.5"
log = "=0.4.34"
proc-macro2 = "=1.0.107"
quote = "=1.0.47"
reqwest = { version = "=0.12.28", default-features = false, features = ["json", "rustls-tls"] }
rmcp = { version = "=3.7.0", features = ["client", "reqwest", "transport-child-process", "transport-streamable-http-client-reqwest"] }
schemars = "=1.2.3"
serde = { version = "=1.0.229", features = ["derive"] }
serde_json = "=1.0.154"
syn = { version = "=2.0.119", features = ["full"] }
thiserror = "=2.0.21"
time = { version = "=0.3.55", features = ["formatting", "local-offset", "parsing"] }
time-tz = "=2.0.0"
tokio = { version = "=1.54.1", features = ["macros", "process", "rt", "rt-multi-thread"] }
