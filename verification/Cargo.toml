[package]
name = "agent_turn"
version = "0.1.0"
edition = "2021"
publish = false

[dependencies]
serde_json = "=1.0.151"
async-stream = "=0.3.6"
async-trait = "=0.1.92"
futures = "=0.3.34"
rmcp = { version = "=3.5.1", features = ["client", "transport-child-process", "transport-streamable-http-client-reqwest"] }
thiserror = "=2.0.21"
tokio = { version = "=1.53.2", features = ["process", "rt", "macros"] }
