pub mod command;
pub mod command_keybind;
pub mod constants;
pub mod impl_appcommand;
pub mod impl_comment;
pub mod impl_display;
pub mod impl_from_str;
pub mod impl_interactive;
pub mod impl_numbered;
pub mod traits;
