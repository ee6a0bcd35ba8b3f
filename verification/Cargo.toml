[package]
name = "auto_clicker"
version = "0.1.0"
edition = "2021"
publish = false

[dependencies]
serde = { version = "1", features = ["derive"] }
serde_json = "1"
image = { version = "0.25", default-features = false, features = ["png"] }
winapi = { version = "0.3", features = ["winuser", "wingdi", "synchapi", "errhandlingapi", "winerror", "windef", "minwindef", "shellapi", "libloaderapi", "ntdef"] }
eframe = { version = "0.31", default-features = false, features = ["default_fonts", "glow", "x11"] }
