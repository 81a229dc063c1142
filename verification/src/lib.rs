//! Core of a quick-launch command bar: the window visibility and focus
//! coordination engine, the command vocabulary and the small text tools
//! both rest on.

pub mod activator;
pub mod commands;
pub mod compositor;
pub mod engine;
pub mod focus;
pub mod gnome;
pub mod icon;
pub mod laws;
pub mod library;
pub mod locator;
pub mod mailbox;
pub mod paths;
pub mod position;
pub mod settings;
pub mod signals;
pub mod text;
