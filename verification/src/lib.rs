//! The decision engine of an input-method overlay for a text editor.
//!
//! Listener threads report what the input method says into a shared state
//! and queue intents; the user-interface thread drains the queue and turns
//! each intent into commands for the editor. Everything here is a function
//! of plain values: the editor and the input method stay with the caller.

pub mod candidates;
pub mod keys;
pub mod layout;
pub mod plugin;
pub mod processor;
pub mod render;
pub mod signals;
pub mod state;
pub mod text;
