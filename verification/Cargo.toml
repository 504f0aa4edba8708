[package]
name = "mssf_core"
version = "0.1.0"
edition = "2021"
publish = false

[dependencies]
mssf-com = { version = "=0.10.0", features = ["ServiceFabric_FabricClient", "ServiceFabric_FabricCommon", "ServiceFabric_FabricTypes", "ServiceFabric_FabricRuntime"] }
mssf-pal = "=0.10.0"
windows-core = "=0.100.0"
tracing = "=0.1.44"
trait-variant = "=0.1.3"
