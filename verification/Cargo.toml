[package]
name = "next_swc"
version = "0.1.0"
edition = "2021"
publish = false

[dependencies]
anyhow = "=1.0.104"
backtrace = "=0.3.76"
console_error_panic_hook = "=0.1.7"
either = "=1.19.0"
fxhash = "=0.2.1"
js-sys = "=0.3.106"
modularize_imports = "=22.0.0"
napi = "=2.16.17"
napi-derive = "=2.16.13"
once_cell = "=1.21.4"
serde = { version = "=1.0.229", features = ["derive"] }
serde_json = "=1.0.154"
styled_components = "=22.0.0"
styled_jsx = "=22.0.0"
swc_atoms = "=10.0.0"
swc_core = { version = "=82.2.0", features = ["base", "common", "ecma_ast", "ecma_ast_serde", "ecma_parser", "ecma_visit", "ecma_transforms"] }
swc_emotion = "=22.0.0"
wasm-bindgen = { version = "=0.2.129", features = ["serde-serialize"] }
wasm-bindgen-futures = "=0.4.79"
