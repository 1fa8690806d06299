[package]
name = "bmputil"
version = "0.1.0"
edition = "2021"
publish = false

[dependencies]
sha2 = "=0.10.9"
url = "=2.5.8"
goblin = "=0.9.3"
nusb = "=0.2.9"
dfu-core = "=0.11.1"
dfu-nusb = "=0.2.0"
clap = { version = "=4.6.7", features = ["derive", "cargo"] }
clap_complete = "=4.6.11"
color-eyre = "=0.6.5"
log = "=0.4.35"
env_logger = "=0.11.11"
serde = { version = "=1.0.229", features = ["derive"] }
serde_json = "=1.0.154"
reqwest = { version = "=0.12.28", default-features = false, features = ["blocking", "rustls-tls"] }
indicatif = "=0.17.11"
dialoguer = "=0.11.0"
directories = "=6.0.0"
ratatui = { version = "=0.30.2", features = ["unstable-rendered-line-info"] }
tui-markdown = "=0.3.13"
owo-colors = "=4.4.0"
anstyle = "=1.0.14"
thiserror = "=2.0.21"
termios = "=0.3.3"
libc = "=0.2.191"
