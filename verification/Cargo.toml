[package]
name = "style_ffi"
version = "0.1.0"
edition = "2021"
publish = false

[dependencies]
cssparser = "*"
cxx = "*"
selectors = "*"
servo_arc = "*"
stylo_dom = "*"
stylo_traits = "*"
url = "*"
