[package]
name = "dolphin_memory"
version = "0.1.0"
edition = "2021"
publish = false

[dependencies]
anyhow = "1"
encoding_rs = "0.8"
neon = { version = "0.10", default-features = false, features = ["napi-6"] }
num-traits = "0.2"
windows = { version = "0.48", features = ["Win32_Foundation", "Win32_System_Diagnostics_Debug", "Win32_System_Diagnostics_ToolHelp", "Win32_System_Memory", "Win32_System_ProcessStatus", "Win32_System_Threading"] }
