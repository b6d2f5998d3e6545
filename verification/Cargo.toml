[package]
name = "done_bot"
version = "0.1.0"
edition = "2021"
publish = false

[dependencies]
anyhow = "1"
chrono = "=0.4.45"
dotenvy = "0.15"
futures = "0.3"
image = { version = "=0.25.10", default-features = false, features = ["png"] }
plotters = "=0.3.7"
sqlx = { version = "=0.9.0", default-features = false, features = ["sqlite", "runtime-tokio", "migrate"] }
# teloxide-core depends on takecell, and takecell 0.1.2 needs rustc 1.96:
# held at the last release that builds with 1.95.
takecell = "=0.1.1"
teloxide = { version = "=0.17.0", features = ["macros"] }
tokio = { version = "1", features = ["macros", "rt-multi-thread"] }
tracing = "0.1"
tracing-subscriber = "0.3"
