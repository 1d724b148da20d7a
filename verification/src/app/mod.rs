//! Application state, the messages that background requests send back, and
//! the decisions taken on input events and timer ticks.

pub mod fetch;
pub mod input;
pub mod state;
pub mod ticks;
