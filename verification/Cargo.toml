[package]
name = "my_cli"
version = "0.1.0"
edition = "2021"
publish = false

[dependencies]
argon2 = "=0.5.3"
base64 = "=0.22.1"
chacha20poly1305 = "=0.10.1"
clap = { version = "=4.6.7", features = ["derive"] }
clap_complete = "=4.6.11"
colored = "=2.2.0"
diesel = { version = "=2.3.14", features = ["sqlite", "r2d2", "returning_clauses_for_sqlite_3_35"] }
directories = "=5.0.1"
dirs = "=5.0.1"
dotenvy = "=0.15.7"
fern = "=0.6.2"
humantime = "=2.4.0"
libsqlite3-sys = { version = "=0.38.2", features = ["bundled"] }
log = "=0.4.35"
once_cell = "=1.21.4"
resolve-path = "=0.1.0"
rpassword = "=7.5.4"
shell-words = "=1.1.1"
tabled = "=0.15.0"
tokio = { version = "=1.54.1", features = ["full"] }
