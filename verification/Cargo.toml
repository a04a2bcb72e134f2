[package]
name = "site_skeleton"
version = "0.1.0"
edition = "2021"
publish = false

[dependencies]
handlebars = "*"
actix-web = "*"
actix-files = "*"
dotenv = "*"
