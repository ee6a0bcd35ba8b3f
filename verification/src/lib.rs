//! Decision logic and data model of a point-and-repeat mouse clicker.
//!
//! The library holds everything the clicker decides and computes on plain
//! values: click modes and settings, the click session state machine, the
//! tray menu and hotkey decisions, coordinate arithmetic for injected clicks,
//! text formatting and parsing of the settings fields, and the model of the
//! main window's state.
pub mod clicker;
pub mod text;
pub mod input;
pub mod config;
pub mod tray;
pub mod hotkey;
pub mod picker;
pub mod window;
pub mod icon;
