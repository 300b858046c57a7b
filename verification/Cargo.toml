[package]
name = "netbench_orchestrator"
version = "0.1.0"
edition = "2021"
publish = false

[dependencies]
base64 = "=0.23.1"
humantime = "=2.4.0"
serde = { version = "=1.0.229", features = ["derive"] }
serde_json = "=1.0.154"
clap = { version = "=4.6.7", features = ["derive"] }
structopt = "=0.3.26"
tokio = { version = "=1.54.1", features = ["full"] }
bytes = "=1.12.1"
async-trait = "=0.1.92"
sysinfo = "=0.40.1"
indicatif = "=0.18.6"
tracing = "=0.1.44"
tracing-appender = "=0.2.5"
tracing-subscriber = { version = "=0.3.23", features = ["env-filter"] }
aws-config = { version = "=1.13.0", default-features = false }
aws-types = "=1.7.0"
aws-sdk-iam = { version = "=1.133.0", default-features = false }
aws-sdk-s3 = { version = "=1.157.0", default-features = false }
aws-sdk-ssm = { version = "=1.133.0", default-features = false }
aws-sdk-sqs = { version = "=1.119.0", default-features = false }
aws-sdk-ec2instanceconnect = { version = "=1.120.0", default-features = false }
