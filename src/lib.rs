//! A keyboard-driven task manager: a persistent task store and the state
//! machine that turns key presses into edits of it.

pub mod codec;
pub mod events;
pub mod states;
pub mod todo;
