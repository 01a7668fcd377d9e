[package]
name = "rendering_plugin"
version = "0.1.0"
edition = "2021"
publish = false

[dependencies]
ash = "=0.38.0+1.3.281"
unity-native-plugin = "=0.8.0"
unity-native-plugin-vulkan = "=0.8.0"
winapi = { version = "=0.3.9", features = ["d3d11", "d3dcommon", "dxgiformat", "winerror", "minwindef", "winnt"] }
wio = "=0.2.2"
