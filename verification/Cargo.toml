[package]
name = "loopback_spectrum"
version = "0.1.0"
edition = "2021"
publish = false

[dependencies]
anyhow = "=1.0.104"
minifb = "=0.29.0"
plotters = "=0.3.7"
spectrum-analyzer = "=2.0.0"
windows = { version = "=0.52.0", features = [
    "Win32_Devices_FunctionDiscovery",
    "Win32_Foundation",
    "Win32_Media_Audio",
    "Win32_System_Com",
    "Win32_System_Com_StructuredStorage",
    "Win32_System_Variant",
    "Win32_UI_Shell_PropertiesSystem",
] }
