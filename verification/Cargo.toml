[package]
name = "meinkraft"
version = "0.1.0"
edition = "2021"
publish = false

[dependencies]
anchor-lang = "=1.2.1"

[dependencies.ephemeral-rollups-sdk]
version = "=0.17.3"
features = ["anchor"]

[dependencies.session-keys]
version = "=3.1.1"
features = ["no-entrypoint"]
