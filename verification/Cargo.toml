[package]
name = "fastly_creds_pusher"
version = "0.1.0"
edition = "2021"
publish = false

[dependencies]
aws-config = "*"
aws-sdk-ssm = "*"
aws-sdk-sts = "*"
aws_lambda_events = "*"
fastly-api = "*"
lambda_runtime = "*"
tokio = { version = "*", features = ["macros", "rt-multi-thread"] }
tracing = "*"
tracing-subscriber = "*"
