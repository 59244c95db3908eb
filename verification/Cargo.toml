[package]
name = "tao_ohos"
version = "0.1.0"
edition = "2021"
publish = false

[dependencies]
url = "2"
log = "0.4"
tokio = { version = "1", features = ["rt", "sync", "time", "macros"] }
openharmony-ability = "*"
openharmony-ability-derive = "*"
