//! Walli: the rules of a menu-bar wallpaper rotator, stated and proved.

pub mod errors;
pub mod text;
pub mod settings;
pub mod sources;
pub mod cache;
pub mod secrets;
pub mod db;
pub mod scheduler;
pub mod commands;
pub mod tray;
