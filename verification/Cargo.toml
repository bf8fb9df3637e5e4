[package]
name = "state_machine"
version = "0.1.0"
edition = "2021"
publish = false

[dependencies]
rtrb = "0.2"
dasp = "0.11"
hound = "3"
cpal = "0.14"
assert_no_alloc = "1"
