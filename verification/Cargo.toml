[package]
name = "datasource_avro"
version = "0.1.0"
edition = "2021"
publish = false

[dependencies]
arrow = "*"
arrow-avro = "*"
arrow-schema = "*"
object_store = "*"
tokio = { version = "1", features = ["io-util", "rt", "sync"] }
futures = "*"
bytes = "*"
