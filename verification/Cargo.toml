[package]
name = "vector_listing"
version = "0.1.0"
edition = "2021"
publish = false

[dependencies]
serde_json = "1"
aws-config = { version = "1", features = ["behavior-version-latest"] }
aws-sdk-s3vectors = "1"
aws-smithy-types = "1"
