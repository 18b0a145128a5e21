[package]
name = "wintrap"
version = "0.3.0"
edition = "2021"
publish = false

[dependencies]
crossbeam-channel = "0.5"
futures = "0.1"
lazy_static = "1"
winapi = { version = "0.3", features = ["consoleapi", "errhandlingapi", "libloaderapi", "minwindef", "processthreadsapi", "winbase", "wincon", "windef", "winuser"] }
