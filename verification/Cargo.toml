[package]
name = "sprite_animate_player"
version = "0.1.0"
edition = "2021"
publish = false

[dependencies]
bevy = { version = "=0.8.1", default-features = false, features = ["render", "bevy_asset", "png"] }
bevy_asset_loader = { version = "0.12", features = ["2d", "stageless"] }
heron = { version = "4", features = ["2d"] }
iyes_loopless = "0.7"
