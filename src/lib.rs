//! Hotkey configuration: a key table, a parser for combination strings, the
//! registry of the active binding, the steps that replace it, and the handler
//! that toggles the window when the binding fires.

pub mod binding;
pub mod dispatch;
pub mod keys;
pub mod manager;
pub mod parse;
pub mod registry;
