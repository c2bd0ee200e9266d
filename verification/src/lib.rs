//! Verified core of the Elevo Messenger desktop shell: the rules that decide
//! which windows and webviews are opened, what they are called, which scripts
//! are injected into them and which messages are routed where.

pub mod text;
pub mod labels;
pub mod json;
pub mod weburl;
pub mod domain;
pub mod room_map;
pub mod scripts;
pub mod layout;
pub mod tray;
pub mod theme;
pub mod routing;
pub mod commands;
pub mod oauth;
pub mod updater;
pub mod menu;
pub mod shell;
pub mod icon;
