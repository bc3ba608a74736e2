//! UI runtime core for a handheld console front end: views, dirty tracking,
//! the bubble queue of commands, the settings list, the theme screen and the
//! in-game menu.
//!
//! Views never paint or send anything themselves: drawing appends primitives
//! to a list that the display driver paints, and commands meant for the
//! application are appended to an outbound list that the caller sends on.
pub mod button_hints;
pub mod color;
pub mod command;
pub mod draw;
pub mod fields;
pub mod font_name;
pub mod geom;
pub mod menu;
pub mod settings_list;
pub mod stylesheet;
pub mod theme;
pub mod value;
pub mod view_node;
pub mod widget;
