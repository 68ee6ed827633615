[package]
name = "boxman"
version = "0.1.0"
edition = "2021"
publish = false

[dependencies]
hashbrown = "=0.14.5"
bevy = { version = "=0.15.1", default-features = false }
avian3d = { version = "=0.2.1", default-features = false, features = ["3d", "f32", "parry-f32"] }
bevy_renet = "=1.0.0"
renet = "=1.0.0"
renet_netcode = "=1.0.0"
bincode = "=1.3.3"
serde = { version = "=1.0.229", features = ["derive"] }
clap = { version = "=4.6.7", features = ["derive"] }
rand = "=0.9.5"
