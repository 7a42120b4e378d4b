[package]
name = "emotion_pipeline"
version = "0.1.0"
edition = "2021"
publish = false

[dependencies]
anyhow = "=1.0.104"
aws-config = "=1.11.0"
aws_lambda_events = "=1.2.1"
aws-sdk-bedrockruntime = "=1.148.0"
aws-sdk-dynamodb = "=1.131.0"
aws-sdk-s3 = "=1.152.0"
aws-sdk-sqs = "=1.114.0"
aws-smithy-types = "=1.9.0"
aws-types = "=1.6.0"
axum = "=0.8.9"
chrono = "=0.4.45"
lambda_http = "=1.3.2"
lambda_runtime = "=1.5.0"
reqwest = "=0.13.5"
serde = { version = "=1.0.229", features = ["derive"] }
serde_dynamo = { version = "=4.3.0", features = ["aws-sdk-dynamodb+1"] }
serde_json = "=1.0.154"
tokio = { version = "=1.54.1", features = ["macros", "rt-multi-thread"] }
