[package]
name = "cargo-depcription"
version = "0.1.0"
edition = "2021"
publish = false

[dependencies]
anyhow = "=1.0.104"
clap = { version = "=4.6.7", features = ["derive"] }
clap-cargo = "=0.19.0"
crates-io-metadata = { version = "=0.1.1", features = ["scrap"] }
to_markdown_table = "=0.1.5"
tokio = { version = "=1.54.1", features = ["macros", "rt-multi-thread"] }
toml_edit = "=0.25.17"
