[package]
name = "gluesql_java"
version = "0.1.0"
edition = "2021"
publish = false

[dependencies]
gluesql-core = "=0.20.0"
gluesql_memory_storage = "=0.20.0"
gluesql-shared-memory-storage = "=0.20.0"
gluesql-json-storage = "=0.20.0"
gluesql_sled_storage = "=0.20.0"
gluesql-redb-storage = "=0.20.0"
serde_json = "=1.0.151"
jni = "=0.22.4"
