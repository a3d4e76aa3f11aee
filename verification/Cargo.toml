[package]
name = "scrcap"
version = "0.5.0"
edition = "2021"
publish = false

[dependencies]
block2 = "*"
crossbeam-channel = "0.5"
crossbeam-utils = "0.8"
dbus = "*"
dispatch2 = "*"
libc = "0.2"
objc2 = "*"
objc2-app-kit = "*"
objc2-core-audio-types = "*"
objc2-core-media = "*"
objc2-core-video = "*"
objc2-foundation = "*"
objc2-screen-capture-kit = "*"
parking_lot = { version = "0.12", features = ["arc_lock"] }
pipewire = "*"
rand = "0.10"
regex = "1"
thiserror = "2"
tracing = "0.1"
windows = { version = "*", features = [
    "Foundation",
    "Foundation_Metadata",
    "Graphics_Capture",
    "Graphics_DirectX",
    "Graphics_DirectX_Direct3D11",
    "Win32_Foundation",
    "Win32_Graphics_Direct3D",
    "Win32_Graphics_Direct3D11",
    "Win32_Graphics_Dxgi",
    "Win32_Graphics_Dxgi_Common",
    "Win32_Graphics_Gdi",
    "Win32_Media_Audio",
    "Win32_Media_KernelStreaming",
    "Win32_Media_Multimedia",
    "Win32_Security",
    "Win32_System_Com",
    "Win32_System_Com_StructuredStorage",
    "Win32_System_Performance",
    "Win32_System_Threading",
    "Win32_System_Variant",
    "Win32_System_WinRT_Direct3D11",
    "Win32_System_WinRT_Graphics_Capture",
    "Win32_UI_Shell",
    "Win32_UI_WindowsAndMessaging",
] }
