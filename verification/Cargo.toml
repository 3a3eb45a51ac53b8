[package]
name = "imageforge_lib"
version = "0.1.0"
edition = "2021"
publish = false

[dependencies]
bytes = "=1.12.1"
img-parts = "=0.4.2"
kamadak-exif = "=0.6.1"
image = { version = "=0.25.10", default-features = false, features = ["png", "jpeg", "webp"] }
png = "=0.18.1"
webp = "=0.3.1"
oxipng = { version = "=10.2.1", default-features = false }
turbojpeg = "=1.5.1"
libheif-rs = "=3.0.0"
uuid = { version = "=1.29.1", features = ["v4"] }
serde = { version = "=1.0.229", features = ["derive"] }
thiserror = "=2.0.21"
tokio = { version = "=1.54.1", features = ["rt-multi-thread", "sync", "macros", "time"] }
tokio-util = "=0.7.20"
num_cpus = "=1.17.0"
open = "=5.4.5"
tracing = "=0.1.44"
tracing-subscriber = { version = "=0.3.23", features = ["env-filter", "fmt"] }
