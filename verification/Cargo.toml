[package]
name = "prisma_client_rust"
version = "0.1.0"
edition = "2021"
publish = false
