[package]
name = "sp2"
version = "0.1.0"
edition = "2021"
publish = false

[dependencies]
log = "*"
thiserror = "*"
wgpu = "*"
ash = "*"
block2 = "*"
objc2 = "*"
objc2-foundation = "*"
objc2-core-foundation = "*"
objc2-io-surface = "*"
objc2-metal = "*"
windows = { version = "*", features = ["Win32_Foundation", "Win32_Security", "Win32_System_Registry", "Win32_System_Memory", "Win32_System_Threading", "Win32_System_LibraryLoader", "Win32_Graphics_Direct3D", "Win32_Graphics_Direct3D11", "Win32_Graphics_Direct3D11on12", "Win32_Graphics_Direct3D12", "Win32_Graphics_Dxgi", "Win32_Graphics_Dxgi_Common"] }
