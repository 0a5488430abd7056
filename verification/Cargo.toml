[package]
name = "volume_shadow_copy"
version = "0.1.0"
edition = "2021"
publish = false

[dependencies]
bitflags = "=1.3.2"
once_cell = "=1.21.4"
widestring = "=1.2.1"
winapi = { version = "=0.3.9", features = ["cguid", "combaseapi", "guiddef", "impl-default", "minwindef", "objbase", "oleauto", "std", "unknwnbase", "vsbackup", "vss", "vsserror", "vswriter", "winbase", "winerror", "winnt", "wtypes", "wtypesbase"] }
winstr = "=0.0.2"
