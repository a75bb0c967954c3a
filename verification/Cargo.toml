[package]
name = "rnes"
version = "0.1.0"
edition = "2021"
publish = false

[dependencies]
bytemuck = { version = "1", features = ["derive"] }
clap = { version = "4", default-features = false, features = ["derive", "std", "help", "usage", "error-context"] }
gilrs = { version = "0.10", default-features = false }
sdl3 = { version = "*", default-features = false }
tokio = { version = "1", default-features = false, features = ["macros", "rt"] }
wgpu = { version = "0.16", default-features = false, features = ["wgsl"] }
winit = { version = "0.28", default-features = false, features = ["x11"] }
