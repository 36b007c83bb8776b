[package]
name = "save_cloud"
version = "0.1.0"
edition = "2021"
publish = false

[dependencies]
qrcode-generator = "=4.1.9"
taffy = "=0.5.2"
tokio = { version = "=1.54.1", features = ["rt-multi-thread", "time", "macros"] }
log = "=0.4.34"
serde = { version = "=1.0.229", features = ["derive"] }
serde_json = "=1.0.154"
base64 = "=0.22.1"
percent-encoding = "=2.3.2"
md5 = "=0.7.0"
zip = { version = "=0.6.6", default-features = false, features = ["deflate"] }
widestring = "=1.2.1"
bitflags = "=2.13.2"
dioxus = { version = "=0.5.6", default-features = false, features = ["macro", "html", "hooks", "signals"] }
dioxus-core = "=0.5.6"
dioxus-html = "=0.5.6"
dioxus-native-core = "=0.4.3"
dioxus-native-core-macro = "=0.4.3"
