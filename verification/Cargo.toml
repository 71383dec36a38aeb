[package]
name = "ts_transpiler"
version = "0.1.0"
edition = "2021"
publish = false

[dependencies]
convert_case = "0.6"
swc_common = { version = "*", features = ["tty-emitter"] }
swc_ecma_ast = "*"
swc_ecma_parser = "*"
