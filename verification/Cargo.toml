[package]
name = "biomarker_score_calculator"
version = "2.3.0"
edition = "2021"
publish = false

[dependencies]
clap = "4"
glob = "0.3"
serde = { version = "1", features = ["derive"] }
serde_json = "1"
tokio = { version = "1", features = ["fs", "macros", "rt-multi-thread"] }
