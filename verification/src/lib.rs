//! The decision and formatting logic of the Paper Plane Telegram client,
//! separated from its widgets and verified.

pub mod text;
pub mod markup;
pub mod selection;
pub mod search;
pub mod chat;
pub mod action_bar;
pub mod format;
pub mod duration;
pub mod sidebar;
pub mod message;
pub mod phone;
pub mod widgets;
pub mod qr;
pub mod layout;
pub mod session;
pub mod history;
pub mod media;
pub mod login;
