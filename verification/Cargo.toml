[package]
name = "retour-utils"
version = "0.2.0"
edition = "2021"
publish = false

[dependencies]
syn = { version = "2", features = ["full"] }
quote = "1"
proc-macro2 = "1"
proc-macro-crate = "3"
retour = "0.3"
windows = { version = "0.48", features = ["Win32_Foundation", "Win32_System_LibraryLoader"] }
