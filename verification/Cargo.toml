[package]
name = "seedy"
version = "0.1.0"
edition = "2021"
publish = false

[dependencies]
base64 = "0.13"
serde_json = "1"
bollard = "0.7"
futures = "0.3"
log = "0.4"
rusoto_core = { version = "0.43", default-features = false, features = ["rustls"] }
rusoto_ecr = { version = "0.43", default-features = false, features = ["rustls"] }
rusoto_sqs = { version = "0.43", default-features = false, features = ["rustls"] }
snafu = "0.6"
stderrlog = "0.4"
structopt = "0.3"
tokio = { version = "0.2", features = ["macros", "rt-threaded"] }
