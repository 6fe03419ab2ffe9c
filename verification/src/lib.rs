//! Share Frame's logic: window geometry, capture scheduling, message
//! routing and the small computations around the Win32 shell.

pub mod capture;
pub mod geometry;
pub mod messages;
pub mod render;
pub mod settings;
pub mod settings_dialog;
pub mod theme;
pub mod tray;
pub mod window;
