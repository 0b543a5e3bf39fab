//! A Gemini browser's layout, cursor, text and protocol logic, with its
//! behaviour stated and proved.

pub mod signed;
pub mod rect;
pub mod screen;
pub mod scroll;
pub mod width;
pub mod cursor;
pub mod screen_cursor;
pub mod screencursor;
pub mod widget;
pub mod layout;
pub mod chars;
pub mod value;
pub mod toml_value;
pub mod color;
pub mod constants;
pub mod frame;
pub mod page;
pub mod config;
pub mod userstyle;
pub mod keys;
pub mod user;
pub mod util;
pub mod gemini;
pub mod links;
pub mod draw;
pub mod text;
pub mod action;
pub mod tab;
pub mod dlg;
pub mod view;
pub mod app;
