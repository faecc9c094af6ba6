[package]
name = "storage_credentials"
version = "0.1.0"
edition = "2021"
publish = false

[dependencies]
async-trait = "=0.1.92"
object_store = { version = "=0.12.5", features = ["aws", "azure", "gcp"] }
percent-encoding = "=2.3.2"
url = "=2.5.8"

[dev-dependencies]
hdfs-native-object-store = "=0.15.0"
