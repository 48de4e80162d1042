[package]
name = "sysmon_core"
version = "0.1.0"
edition = "2021"
publish = false

[dependencies]
eframe = { version = "0.24", default-features = false, features = ["glow", "x11", "default_fonts"] }
egui = { version = "0.24", default-features = false }
egui_plot = { version = "0.24", default-features = false }
sysinfo = { version = "0.29", default-features = false }
winapi = { version = "0.3", features = ["shellapi", "wingdi", "winuser", "windef"] }
