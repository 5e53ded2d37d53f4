[package]
name = "zluda_dnn"
version = "0.1.0"
edition = "2021"
publish = false

[dependencies]
argh = "=0.1.19"
detours-sys = "=0.1.2"
lazy_static = "=1.5.1"
tempfile = "=3.27.0"
winapi = { version = "=0.3.9", features = ["errhandlingapi", "jobapi2", "processenv", "processthreadsapi", "synchapi", "winbase", "winnt"] }
