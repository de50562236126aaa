[package]
name = "sol_system"
version = "0.1.0"
edition = "2021"
publish = false

[dependencies]
ode_solvers = "*"
serde = { version = "*", features = ["derive"] }
vsop87 = "*"
