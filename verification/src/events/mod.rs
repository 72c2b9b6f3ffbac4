//! The handlers, one module each.
pub mod close_window;
pub mod move_focus;
pub mod toggle_scratch;
pub mod switch_master_side;
pub mod move_sublime_text;
pub mod eww_open;
pub mod eww_todo_getall;
pub mod magnifier;
