[package]
name = "control_has_associated_label"
version = "0.1.0"
edition = "2021"
publish = false

[dependencies]
oxc_ast = "=0.143.0"
oxc_span = "=0.143.0"
oxc_diagnostics = "=0.143.0"
oxc_str = "=0.143.0"
serde = { version = "=1.0.229", features = ["derive"] }
serde_json = "=1.0.154"
schemars = "=1.2.3"

[dev-dependencies]
oxc_allocator = "=0.143.0"
oxc_parser = "=0.143.0"
