pub mod command;
pub mod config;
pub mod key_command;
pub mod history;
pub mod input;
pub mod keymap;
pub mod mimetype;
pub mod numparse;
pub mod page_state;
pub mod preview;
pub mod run;
pub mod sort;
pub mod structs;
pub mod text;
pub mod ui;
pub mod unix;
pub mod window;
