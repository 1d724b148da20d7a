//! Layout arithmetic of the panels.

pub mod layout;
