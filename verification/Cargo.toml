[package]
name = "istr"
version = "0.1.0"
edition = "2021"
publish = false

[dependencies]
url = "2"

[dev-dependencies]
cusip = "*"
isin = "*"
iban_validate = "*"
