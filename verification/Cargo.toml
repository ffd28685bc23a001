[package]
name = "rig-bedrock"
version = "0.1.0"
edition = "2021"
publish = false

[dependencies]
aws-config = { version = "=1.13.0", default-features = false, features = ["behavior-version-latest"] }
aws-sdk-bedrockruntime = { version = "=1.151.0", default-features = false }
aws-smithy-types = "=1.9.0"
base64 = "=0.22.1"
rig-core = { version = "=0.31.0", default-features = false }
schemars = "1"
serde = { version = "=1.0.229", features = ["derive"] }
serde_json = "=1.0.154"
tracing = "=0.1.44"
