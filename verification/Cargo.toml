[package]
name = "joshuto"
version = "0.1.0"
edition = "2021"
publish = false

[dependencies]
shell-words = "*"
unicode-width = "*"
ncurses = "*"
wordexp = "*"
libc = "*"
toml = "*"
serde = { version = "*", features = ["derive"] }
xdg = "*"
dirs-next = "*"
whoami = "*"
chrono = "*"
lazy_static = "*"
fs_extra = "*"
tree_magic = "*"
mime = "*"
mime-detective = "*"
clap = { version = "*", features = ["derive"] }
clap_complete = "*"
termion = "*"
rustyline = "*"
