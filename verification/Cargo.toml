[package]
name = "butterfly"
version = "0.1.0"
edition = "2021"
publish = false

[dependencies]
serde = { version = "1", features = ["derive"] }
serde_json = "1"
reqwest = { version = "0.11", features = ["blocking", "stream"] }
futures-util = "0.3"
tokio = { version = "1", features = ["rt"] }
quick-xml = { version = "0.23", features = ["serialize"] }
sha256 = "1"
unzip = "0.1"
directories = "4"
native-dialog = "0.6"
open = "3"
sysinfo = "0.29"
simple-logging = "2"
log = "0.4"
threadpool = "1"
num_cpus = "1"
