//! A desktop tray-icon library whose core is the menu identifier scheme:
//! an ordered list of custom menu entries is combined with the optional
//! About / Settings / Quit defaults into one flat integer identifier space,
//! and raw click identifiers are resolved back into semantic actions.

pub mod aloe_compat;
pub mod config;
pub mod contrib;
pub mod error;
pub mod menu;
pub mod stray_impl;
pub mod tray;

pub use config::AppConfig;
pub use error::TrayError;
pub use menu::MenuAction;
