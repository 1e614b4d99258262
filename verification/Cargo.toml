[package]
name = "amqp_link"
version = "0.1.0"
edition = "2021"
publish = false

[dependencies]
actix-router = "0.2"
amqp-codec = "=0.1.0"
futures = "=0.1.31"
