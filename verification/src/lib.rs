//! The decision logic of a desktop notification daemon: configuration,
//! the notification record, icon lookup and the animated window's state machine.

pub mod text;
pub mod table;
pub mod config;
pub mod dbus;
pub mod icon;
pub mod window;
