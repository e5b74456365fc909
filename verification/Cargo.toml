[package]
name = "agent"
version = "0.1.0"
edition = "2021"
publish = false

[dependencies]
anyhow = "=1.0.104"
async-nats = "=0.51.0"
async-trait = "=0.1.92"
bytes = "=1.12.1"
ferrisetw = "=1.2.0"
futures-core = "=0.3.34"
parking_lot = "=0.12.5"
reqwest = { version = "=0.12.28", default-features = false, features = ["multipart", "stream"] }
sentry = { version = "=0.49.5", default-features = false, features = ["backtrace", "contexts", "panic"] }
sentry-tracing = "=0.49.5"
serde = { version = "=1.0.229", features = ["derive"] }
serde_json = "=1.0.154"
sha2 = "=0.11.1"
thiserror = "=2.0.21"
tokio = { version = "=1.54.1", features = ["full"] }
tokio-util = { version = "=0.7.20", features = ["io"] }
toml = "=1.1.8"
tracing = "=0.1.44"
tracing-subscriber = { version = "=0.3.23", features = ["env-filter"] }
uuid = { version = "=1.29.0", features = ["v4", "serde"] }
windows = { version = "=0.57.0", features = ["Win32_Foundation", "Win32_Security", "Win32_Security_Authorization", "Win32_System_Diagnostics_ToolHelp", "Win32_System_Pipes", "Win32_System_Registry", "Win32_System_RemoteDesktop", "Win32_System_SystemInformation", "Win32_System_Threading", "Win32_System_Time"] }
windows-service = "=0.8.1"
