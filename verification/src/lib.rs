pub mod command;
pub mod host;
pub mod icon;
pub mod model;
pub mod platform;
pub mod position;
pub mod procedure;
pub mod shortcut;
pub mod toggle;
pub mod visibility;
