[package]
name = "mltg"
version = "0.1.0"
edition = "2021"
publish = false

[dependencies]
gecl = "=0.2.1"
raw-window-handle = "=0.5.2"
thiserror = "=1.0.69"
windows = { version = "=0.44.0", features = [
    "Foundation_Numerics",
    "Win32_Foundation",
    "Win32_Graphics_Direct2D",
    "Win32_Graphics_Direct2D_Common",
    "Win32_Graphics_Direct3D",
    "Win32_Graphics_Direct3D11",
    "Win32_Graphics_Direct3D11on12",
    "Win32_Graphics_Direct3D12",
    "Win32_Graphics_DirectWrite",
    "Win32_Graphics_Dxgi",
    "Win32_Graphics_Dxgi_Common",
    "Win32_Graphics_Imaging",
    "Win32_Graphics_Imaging_D2D",
    "Win32_System_Com",
    "Win32_System_SystemServices",
] }
