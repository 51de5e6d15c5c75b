[package]
name = "rappct"
version = "0.2.0"
edition = "2021"
publish = false

[dependencies]
strsim = "*"
windows = { version = "*", features = [
    "Win32_Foundation",
    "Win32_Security",
    "Win32_Security_Authorization",
    "Win32_Storage_FileSystem",
    "Win32_System_Com",
    "Win32_System_JobObjects",
    "Win32_System_Pipes",
    "Win32_System_Threading",
    "Win32_System_WindowsProgramming",
] }
