//! The decisions and renderings behind the user interface.

pub mod chat;
pub mod command_palette;
pub mod comparison;
pub mod export;
pub mod input_bar;
pub mod introspection;
pub mod model_diff;
pub mod model_switcher;
pub mod output_diff;
pub mod session_sidebar;
pub mod settings;
pub mod toast;
pub mod visualization;
