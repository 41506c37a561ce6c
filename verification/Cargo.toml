[package]
name = "yerpc"
version = "0.1.0"
edition = "2021"
publish = false

[dependencies]
convert_case = "=0.6.0"
typescript-type-def = "=0.5.15"
proc-macro2 = "1"
quote = "1"
syn = "2"
