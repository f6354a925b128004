pub mod config;
pub mod mimetype;
pub mod preview;
pub mod theme;
