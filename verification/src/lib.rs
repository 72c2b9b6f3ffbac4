//! Decision logic of a Hyprland event handler daemon.
//!
//! Each handler (`events`) is a state machine: started with its arguments, it asks
//! for one [`session::Action`] at a time (a query or commands for Hyprland's socket,
//! a program to run) and is resumed with the [`session::Event`] that the action
//! produced, until it answers. The daemon around it performs the actions.
pub mod command;
pub mod events;
pub mod helper;
pub mod hypr;
pub mod json;
pub mod laws;
pub mod session;
pub mod text;
