[package]
name = "dwarf_unwind"
version = "0.1.0"
edition = "2021"
publish = false

[dependencies]
gimli = "*"
fallible-iterator = "*"
libc = "*"
findshlibs = "*"
memmap = "*"
object = "*"
