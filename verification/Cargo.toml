[package]
name = "comport"
version = "0.1.0"
edition = "2021"
publish = false

[dependencies]
winapi = { version = "0.3", features = ["commapi", "errhandlingapi", "fileapi", "handleapi", "ioapiset", "minwinbase", "minwindef", "ntdef", "processthreadsapi", "synchapi", "winbase", "winerror", "winnt"] }
windows = { version = "*", features = ["Devices_SerialCommunication"] }
