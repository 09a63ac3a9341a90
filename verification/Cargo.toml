[package]
name = "meshboard"
version = "0.1.0"
edition = "2021"
publish = false
rust-version = "1.95"

[dependencies]
anyhow = "=1.0.104"
async-trait = "=0.1.92"
chrono = "=0.4.45"
clap = { version = "=4.6.7", features = ["derive"] }
# Not named in the code: the Bluetooth side of meshtastic reaches D-Bus
# through this crate, and `vendored` builds libdbus from source, so that no
# system library has to be installed.
dbus = { version = "=0.9.12", features = ["vendored"] }
dotenvy = "=0.15.7"
embedded-graphics = "=0.8.2"
env_logger = "=0.11.11"
epd-waveshare = "=0.6.0"
hex = "=0.4.3"
linux-embedded-hal = "=0.5.0"
log = "=0.4.34"
meshtastic = { version = "=0.1.9", features = ["bluetooth-le"] }
mini-moka = "=0.10.3"
native_db = "=0.8.2"
native_model = "=0.4.20"
# Names the error of the protocol buffer decoder that meshtastic hands on.
prost = "=0.14.4"
reedline = "=0.52.1"
serde = { version = "=1.0.229", features = ["derive"] }
serde_cbor = "=0.11.2"
sha2 = "=0.10.9"
# Not named in the code: teloxide needs it, and the release after this one
# asks for a newer compiler than rust-version.
takecell = "=0.1.1"
teloxide = "=0.17.0"
tokio = { version = "=1.54.1", features = ["full"] }
tokio-util = "=0.7.20"
